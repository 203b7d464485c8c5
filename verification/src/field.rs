//! The members of an envelope as they appear on the wire.
//!
//! An envelope travels as an object: a list of named members in the order in
//! which they were written. [`FieldRef`] is a member about to be written,
//! borrowed from the envelope; [`Field`] is a member that was read, with its
//! value already decoded according to its name. Both stand for the same
//! thing, a [`FieldView`], and everything that is said about encoding and
//! decoding is said about lists of those.

use vstd::prelude::*;
use crate::error::Error;
use crate::error::ErrorView;
use crate::id::IdView;
use crate::id::ResponseId;
use crate::text::text_eq;
use crate::version::version_literal;

verus! {

/// The member names that the three envelopes use.
#[derive(Debug, Clone, Copy, PartialEq, Eq, Hash, Structural)]
pub enum Key {
    Jsonrpc,
    Id,
    Method,
    Params,
    Result,
    Error,
}

impl Key {
    /// The member name as it is written on the wire.
    pub open spec fn name(self) -> Seq<char> {
        match self {
            Key::Jsonrpc => "jsonrpc"@,
            Key::Id => "id"@,
            Key::Method => "method"@,
            Key::Params => "params"@,
            Key::Result => "result"@,
            Key::Error => "error"@,
        }
    }

    /// The member name as it is written on the wire.
    pub fn as_str(&self) -> (text: &'static str)
        ensures
            text@ == self.name(),
    {
        match self {
            Key::Jsonrpc => "jsonrpc",
            Key::Id => "id",
            Key::Method => "method",
            Key::Params => "params",
            Key::Result => "result",
            Key::Error => "error",
        }
    }

    /// The key that travels under `name`, if `name` is one of the member
    /// names of the protocol. Names are compared exactly, letter case
    /// included.
    pub fn parse(name: &str) -> (key: Option<Key>)
        ensures
            forall|other: Key| key == Some(other) <==> name@ == other.name(),
    {
        let key = if text_eq(name, "jsonrpc") {
            Some(Key::Jsonrpc)
        } else if text_eq(name, "id") {
            Some(Key::Id)
        } else if text_eq(name, "method") {
            Some(Key::Method)
        } else if text_eq(name, "params") {
            Some(Key::Params)
        } else if text_eq(name, "result") {
            Some(Key::Result)
        } else if text_eq(name, "error") {
            Some(Key::Error)
        } else {
            None
        };
        proof {
            assert forall|other: Key| key == Some(other) <==> name@ == other.name() by {
                if let Some(found) = key {
                    if found != other {
                        found.names_differ(other);
                    }
                }
            }
        }
        key
    }

    /// No two keys share a name.
    pub proof fn names_differ(self, other: Key)
        requires
            self != other,
        ensures
            self.name() != other.name(),
    {
        reveal_strlit("jsonrpc");
        reveal_strlit("id");
        reveal_strlit("method");
        reveal_strlit("params");
        reveal_strlit("result");
        reveal_strlit("error");
        assert("jsonrpc"@.len() == 7 && "id"@.len() == 2);
        assert("method"@[0] == 'm' && "params"@[0] == 'p' && "result"@[0] == 'r');
        assert("error"@.len() == 5);
    }
}

/// The three envelopes of the protocol.
#[derive(Debug, Clone, Copy, PartialEq, Eq, Hash, Structural)]
pub enum Kind {
    Request,
    Notification,
    Response,
}

impl Kind {
    /// The members that an envelope of this kind may hold only once. Every
    /// other member is foreign to the envelope and passed over when it is
    /// read, however often it occurs; the result and the error of a response
    /// are counted together instead (see [`outcome_count`]).
    pub open spec fn holds_once(self, key: Key) -> bool {
        match self {
            Kind::Request => key == Key::Jsonrpc || key == Key::Id || key == Key::Method || key
                == Key::Params,
            Kind::Notification => key == Key::Jsonrpc || key == Key::Method || key == Key::Params,
            Kind::Response => key == Key::Jsonrpc || key == Key::Id,
        }
    }

    /// The members that an envelope of this kind is read from. Members under
    /// any other name have no part in it.
    pub open spec fn reads_from(self, key: Key) -> bool {
        self.holds_once(key) || (self == Kind::Response && (key == Key::Result || key
            == Key::Error))
    }

    /// Whether an envelope of this kind is read from members under `key`.
    pub fn reads(&self, key: Key) -> (read: bool)
        ensures
            read == self.reads_from(key),
    {
        self.checks(key) || (*self == Kind::Response && (key == Key::Result || key == Key::Error))
    }

    /// Whether an envelope of this kind may hold `key` only once.
    pub fn checks(&self, key: Key) -> (once: bool)
        ensures
            once == self.holds_once(key),
    {
        match self {
            Kind::Request => key == Key::Jsonrpc || key == Key::Id || key == Key::Method || key
                == Key::Params,
            Kind::Notification => key == Key::Jsonrpc || key == Key::Method || key == Key::Params,
            Kind::Response => key == Key::Jsonrpc || key == Key::Id,
        }
    }
}

/// A member that was read from the wire, its value decoded as its name asks.
#[derive(Debug, Clone, PartialEq)]
pub enum Field<P> {
    /// `jsonrpc`: the text of the version tag, not yet checked.
    Jsonrpc(String),
    /// `id`: the identifier.
    Id(ResponseId),
    /// `method`: the method name, not yet checked.
    Method(String),
    /// `params`: the parameters, or `None` where the wire says `null`.
    Params(Option<P>),
    /// `result`: the payload of a successful response.
    Result(P),
    /// `error`: the error object of a failed response.
    Error(Error),
}

/// A member about to be written, borrowed from the envelope that holds it.
#[derive(Debug)]
pub enum FieldRef<'a, P> {
    /// `jsonrpc`: the version literal.
    Jsonrpc(&'a str),
    /// `id`: the identifier.
    Id(&'a ResponseId),
    /// `method`: the method name.
    Method(&'a str),
    /// `params`: the parameters, which are present.
    Params(&'a P),
    /// `result`: the payload of a successful response.
    Result(&'a P),
    /// `error`: the error object of a failed response.
    Error(&'a Error),
}

/// What a member stands for, read or about to be written.
pub ghost enum FieldView<P> {
    Jsonrpc(Seq<char>),
    Id(IdView),
    Method(Seq<char>),
    Params(Option<P>),
    Result(P),
    Error(ErrorView),
}

impl<P> FieldView<P> {
    /// The name under which the member travels.
    pub open spec fn key(self) -> Key {
        match self {
            FieldView::Jsonrpc(_) => Key::Jsonrpc,
            FieldView::Id(_) => Key::Id,
            FieldView::Method(_) => Key::Method,
            FieldView::Params(_) => Key::Params,
            FieldView::Result(_) => Key::Result,
            FieldView::Error(_) => Key::Error,
        }
    }

    /// Whether the member is the result or the error of a response.
    pub open spec fn is_outcome(self) -> bool {
        self is Result || self is Error
    }

    /// Whether the member is a version tag other than the accepted literal.
    pub open spec fn is_bad_version(self) -> bool {
        self matches FieldView::Jsonrpc(text) && text != version_literal()
    }
}

impl<P> View for Field<P> {
    type V = FieldView<P>;

    open spec fn view(&self) -> FieldView<P> {
        match *self {
            Field::Jsonrpc(text) => FieldView::Jsonrpc(text@),
            Field::Id(id) => FieldView::Id(id@),
            Field::Method(name) => FieldView::Method(name@),
            Field::Params(params) => FieldView::Params(params),
            Field::Result(value) => FieldView::Result(value),
            Field::Error(error) => FieldView::Error(error@),
        }
    }
}

impl<'a, P> View for FieldRef<'a, P> {
    type V = FieldView<P>;

    open spec fn view(&self) -> FieldView<P> {
        match *self {
            FieldRef::Jsonrpc(text) => FieldView::Jsonrpc(text@),
            FieldRef::Id(id) => FieldView::Id(id@),
            FieldRef::Method(name) => FieldView::Method(name@),
            FieldRef::Params(params) => FieldView::Params(Some(*params)),
            FieldRef::Result(value) => FieldView::Result(*value),
            FieldRef::Error(error) => FieldView::Error(error@),
        }
    }
}

impl<P> Field<P> {
    /// The name under which the member travels.
    pub fn key(&self) -> (key: Key)
        ensures
            key == self@.key(),
    {
        match self {
            Field::Jsonrpc(_) => Key::Jsonrpc,
            Field::Id(_) => Key::Id,
            Field::Method(_) => Key::Method,
            Field::Params(_) => Key::Params,
            Field::Result(_) => Key::Result,
            Field::Error(_) => Key::Error,
        }
    }
}

impl<'a, P> FieldRef<'a, P> {
    /// The name under which the member travels.
    pub fn key(&self) -> (key: Key)
        ensures
            key == self@.key(),
    {
        match self {
            FieldRef::Jsonrpc(_) => Key::Jsonrpc,
            FieldRef::Id(_) => Key::Id,
            FieldRef::Method(_) => Key::Method,
            FieldRef::Params(_) => Key::Params,
            FieldRef::Result(_) => Key::Result,
            FieldRef::Error(_) => Key::Error,
        }
    }
}

/// What a list of read members stands for, member by member.
pub open spec fn views<P>(fields: Seq<Field<P>>) -> Seq<FieldView<P>> {
    Seq::new(fields.len(), |i: int| fields[i]@)
}

/// What a list of members about to be written stands for, member by member.
pub open spec fn ref_views<'a, P>(fields: Seq<FieldRef<'a, P>>) -> Seq<FieldView<P>> {
    Seq::new(fields.len(), |i: int| fields[i]@)
}

/// The text of the first version tag in `fields` that is not the accepted
/// literal, if there is one.
pub open spec fn first_bad_version<P>(fields: Seq<FieldView<P>>) -> Option<Seq<char>>
    decreases fields.len(),
{
    if fields.len() == 0 {
        None
    } else {
        match first_bad_version(fields.drop_last()) {
            Some(found) => Some(found),
            None => match fields.last() {
                FieldView::Jsonrpc(text) => if text != version_literal() {
                    Some(text)
                } else {
                    None
                },
                _ => None,
            },
        }
    }
}

/// The first member of `fields` that travels under `key`, if there is one.
pub open spec fn find<P>(fields: Seq<FieldView<P>>, key: Key) -> Option<FieldView<P>>
    decreases fields.len(),
{
    if fields.len() == 0 {
        None
    } else {
        match find(fields.drop_last(), key) {
            Some(member) => Some(member),
            None => if fields.last().key() == key {
                Some(fields.last())
            } else {
                None
            },
        }
    }
}

/// The name of the first member of `fields`, in wire order, that repeats the
/// name of an earlier member, among the names that an envelope of this kind
/// may hold only once.
pub open spec fn first_repeat<P>(fields: Seq<FieldView<P>>, kind: Kind) -> Option<Key>
    decreases fields.len(),
{
    if fields.len() == 0 {
        None
    } else {
        match first_repeat(fields.drop_last(), kind) {
            Some(key) => Some(key),
            None => {
                let key = fields.last().key();
                if kind.holds_once(key) && find(fields.drop_last(), key) is Some {
                    Some(key)
                } else {
                    None
                }
            },
        }
    }
}

/// How many members of `fields` are a result or an error.
pub open spec fn outcome_count<P>(fields: Seq<FieldView<P>>) -> nat
    decreases fields.len(),
{
    if fields.len() == 0 {
        0
    } else {
        outcome_count(fields.drop_last()) + if fields.last().is_outcome() {
            1nat
        } else {
            0nat
        }
    }
}

/// The first member of `fields` that is a result or an error, if there is one.
pub open spec fn first_outcome<P>(fields: Seq<FieldView<P>>) -> Option<FieldView<P>>
    decreases fields.len(),
{
    if fields.len() == 0 {
        None
    } else {
        match first_outcome(fields.drop_last()) {
            Some(member) => Some(member),
            None => if fields.last().is_outcome() {
                Some(fields.last())
            } else {
                None
            },
        }
    }
}

/// The first version tag that is reported is a member of the list, is not the
/// accepted literal, and has no such tag before it; none is reported only
/// where every version tag in the list is the accepted literal.
pub proof fn lemma_first_bad_version<P>(fields: Seq<FieldView<P>>)
    ensures
        match first_bad_version(fields) {
            Some(found) => found != version_literal() && exists|i: int|
                0 <= i < fields.len() && #[trigger] fields[i] == FieldView::<P>::Jsonrpc(found)
                    && forall|j: int| 0 <= j < i ==> !(#[trigger] fields[j]).is_bad_version(),
            None => forall|i: int|
                0 <= i < fields.len() ==> !(#[trigger] fields[i]).is_bad_version(),
        },
    decreases fields.len(),
{
    if fields.len() > 0 {
        let front = fields.drop_last();
        lemma_first_bad_version(front);
        assert(forall|i: int| 0 <= i < front.len() ==> front[i] == fields[i]);
        match first_bad_version(front) {
            Some(found) => {
                let i = choose|i: int|
                    0 <= i < front.len() && #[trigger] front[i] == FieldView::<P>::Jsonrpc(found)
                        && forall|j: int| 0 <= j < i ==> !(#[trigger] front[j]).is_bad_version();
                assert(fields[i] == FieldView::<P>::Jsonrpc(found));
                assert(forall|j: int| 0 <= j < i ==> !(#[trigger] fields[j]).is_bad_version()) by {
                    assert(forall|j: int| 0 <= j < i ==> fields[j] == front[j]);
                }
            },
            None => {
                let last = fields.len() - 1;
                assert(forall|j: int|
                    0 <= j < last ==> !(#[trigger] fields[j]).is_bad_version()) by {
                    assert(forall|j: int| 0 <= j < last ==> fields[j] == front[j]);
                }
                if fields.last().is_bad_version() {
                    assert(fields[last] == FieldView::<P>::Jsonrpc(fields.last()->Jsonrpc_0));
                }
            },
        }
    }
}

/// What [`find`] gives is the first member under the name, and it gives none
/// only where no member travels under the name.
pub proof fn lemma_find<P>(fields: Seq<FieldView<P>>, key: Key)
    ensures
        match find(fields, key) {
            Some(member) => member.key() == key && exists|i: int|
                0 <= i < fields.len() && #[trigger] fields[i] == member && forall|j: int|
                    0 <= j < i ==> (#[trigger] fields[j]).key() != key,
            None => forall|i: int| 0 <= i < fields.len() ==> (#[trigger] fields[i]).key() != key,
        },
    decreases fields.len(),
{
    if fields.len() > 0 {
        let front = fields.drop_last();
        lemma_find(front, key);
        assert(forall|i: int| 0 <= i < front.len() ==> front[i] == fields[i]);
        match find(front, key) {
            Some(member) => {
                let i = choose|i: int|
                    0 <= i < front.len() && #[trigger] front[i] == member && forall|j: int|
                        0 <= j < i ==> (#[trigger] front[j]).key() != key;
                assert(fields[i] == member);
                assert(forall|j: int| 0 <= j < i ==> (#[trigger] fields[j]).key() != key) by {
                    assert(forall|j: int| 0 <= j < i ==> fields[j] == front[j]);
                }
            },
            None => {
                let last = fields.len() - 1;
                assert(forall|j: int| 0 <= j < last ==> (#[trigger] fields[j]).key() != key) by {
                    assert(forall|j: int| 0 <= j < last ==> fields[j] == front[j]);
                }
                if fields.last().key() == key {
                    assert(fields[last] == fields.last());
                }
            },
        }
    }
}

/// A repeated member is reported exactly where two members of the list
/// travel under one name that the envelope may hold only once.
pub proof fn lemma_first_repeat<P>(fields: Seq<FieldView<P>>, kind: Kind)
    ensures
        first_repeat(fields, kind) is None <==> forall|i: int, j: int|
            0 <= i < j < fields.len() && kind.holds_once((#[trigger] fields[j]).key()) ==> (
            #[trigger] fields[i]).key() != fields[j].key(),
    decreases fields.len(),
{
    if fields.len() > 0 {
        let front = fields.drop_last();
        let last = fields.len() - 1;
        lemma_first_repeat(front, kind);
        lemma_find(front, fields.last().key());
        assert(forall|i: int| 0 <= i < front.len() ==> front[i] == fields[i]);
        if first_repeat(fields, kind) is None {
            assert forall|i: int, j: int|
                0 <= i < j < fields.len() && kind.holds_once(
                    (#[trigger] fields[j]).key(),
                ) implies (#[trigger] fields[i]).key() != fields[j].key() by {
                if j < last {
                    assert(front[i] == fields[i] && front[j] == fields[j]);
                } else {
                    assert(front[i] == fields[i]);
                }
            }
        } else if first_repeat(front, kind) is None {
            let member = find(front, fields.last().key())->0;
            let i = choose|i: int| 0 <= i < front.len() && #[trigger] front[i] == member;
            assert(fields[i].key() == fields[last].key());
        } else {
            let (i, j) = choose|i: int, j: int|
                0 <= i < j < front.len() && kind.holds_once((#[trigger] front[j]).key()) && (
                #[trigger] front[i]).key() == front[j].key();
            assert(fields[i].key() == fields[j].key());
        }
    }
}

/// Where no member is a result or an error the count is zero, and where two
/// members are the count is above one.
pub proof fn lemma_outcome_count<P>(fields: Seq<FieldView<P>>)
    ensures
        outcome_count(fields) == 0 <==> forall|i: int|
            0 <= i < fields.len() ==> !(#[trigger] fields[i]).is_outcome(),
        outcome_count(fields) > 1 <==> exists|i: int, j: int|
            0 <= i < j < fields.len() && (#[trigger] fields[i]).is_outcome() && (
            #[trigger] fields[j]).is_outcome(),
    decreases fields.len(),
{
    if fields.len() > 0 {
        let front = fields.drop_last();
        let last = fields.len() - 1;
        lemma_outcome_count(front);
        assert(forall|i: int| 0 <= i < front.len() ==> front[i] == fields[i]);
        if outcome_count(fields) == 0 {
            assert forall|i: int| 0 <= i < fields.len() implies !(
            #[trigger] fields[i]).is_outcome() by {
                if i < last {
                    assert(front[i] == fields[i]);
                }
            }
        } else if outcome_count(front) == 0 {
            assert(fields[last].is_outcome());
        } else {
            let i = choose|i: int| 0 <= i < front.len() && (#[trigger] front[i]).is_outcome();
            assert(fields[i].is_outcome());
        }
        if outcome_count(fields) > 1 {
            if outcome_count(front) > 1 {
                let (i, j) = choose|i: int, j: int|
                    0 <= i < j < front.len() && (#[trigger] front[i]).is_outcome() && (
                    #[trigger] front[j]).is_outcome();
                assert(fields[i].is_outcome() && fields[j].is_outcome());
            } else {
                let i = choose|i: int| 0 <= i < front.len() && (#[trigger] front[i]).is_outcome();
                assert(fields[i].is_outcome() && fields[last].is_outcome());
            }
        } else {
            assert forall|i: int, j: int| 0 <= i < j < fields.len() implies !((
            #[trigger] fields[i]).is_outcome() && (#[trigger] fields[j]).is_outcome()) by {
                if j < last {
                    assert(front[i] == fields[i] && front[j] == fields[j]);
                } else if fields[j].is_outcome() {
                    assert(front[i] == fields[i]);
                }
            }
        }
    }
}

/// What [`first_outcome`] gives is the first member that is a result or an
/// error, and it gives none only where no member is either.
pub proof fn lemma_first_outcome<P>(fields: Seq<FieldView<P>>)
    ensures
        match first_outcome(fields) {
            Some(member) => member.is_outcome() && exists|i: int|
                0 <= i < fields.len() && #[trigger] fields[i] == member && forall|j: int|
                    0 <= j < i ==> !(#[trigger] fields[j]).is_outcome(),
            None => forall|i: int| 0 <= i < fields.len() ==> !(#[trigger] fields[i]).is_outcome(),
        },
    decreases fields.len(),
{
    if fields.len() > 0 {
        let front = fields.drop_last();
        lemma_first_outcome(front);
        assert(forall|i: int| 0 <= i < front.len() ==> front[i] == fields[i]);
        match first_outcome(front) {
            Some(member) => {
                let i = choose|i: int|
                    0 <= i < front.len() && #[trigger] front[i] == member && forall|j: int|
                        0 <= j < i ==> !(#[trigger] front[j]).is_outcome();
                assert(fields[i] == member);
                assert(forall|j: int| 0 <= j < i ==> !(#[trigger] fields[j]).is_outcome()) by {
                    assert(forall|j: int| 0 <= j < i ==> fields[j] == front[j]);
                }
            },
            None => {
                let last = fields.len() - 1;
                assert(forall|j: int| 0 <= j < last ==> !(#[trigger] fields[j]).is_outcome()) by {
                    assert(forall|j: int| 0 <= j < last ==> fields[j] == front[j]);
                }
                if fields.last().is_outcome() {
                    assert(fields[last] == fields.last());
                }
            },
        }
    }
}

/// The members of `fields` that an envelope of this kind is read from, in
/// wire order.
pub open spec fn read_members<P>(fields: Seq<FieldView<P>>, kind: Kind) -> Seq<FieldView<P>>
    decreases fields.len(),
{
    if fields.len() == 0 {
        fields
    } else {
        let front = read_members(fields.drop_last(), kind);
        if kind.reads_from(fields.last().key()) {
            front.push(fields.last())
        } else {
            front
        }
    }
}

/// Nothing that is looked for among the members of an envelope changes when
/// the members that the envelope is not read from are left out.
pub proof fn lemma_read_members<P>(fields: Seq<FieldView<P>>, kind: Kind)
    ensures
        first_bad_version(read_members(fields, kind)) == first_bad_version(fields),
        first_repeat(read_members(fields, kind), kind) == first_repeat(fields, kind),
        forall|key: Key|
            kind.reads_from(key) ==> #[trigger] find(read_members(fields, kind), key) == find(
                fields,
                key,
            ),
        kind == Kind::Response ==> outcome_count(read_members(fields, kind)) == outcome_count(
            fields,
        ),
        kind == Kind::Response ==> first_outcome(read_members(fields, kind)) == first_outcome(
            fields,
        ),
    decreases fields.len(),
{
    if fields.len() > 0 {
        let front = fields.drop_last();
        let last = fields.last();
        lemma_read_members(front, kind);
        let kept = read_members(fields, kind);
        if kind.reads_from(last.key()) {
            assert(kept.drop_last() =~= read_members(front, kind));
            assert(kept.last() == last);
            assert(find(read_members(front, kind), last.key()) == find(front, last.key()));
        }
        assert forall|key: Key| kind.reads_from(key) implies #[trigger] find(kept, key) == find(
            fields,
            key,
        ) by {
            assert(find(read_members(front, kind), key) == find(front, key));
        }
    }
}

} // verus!

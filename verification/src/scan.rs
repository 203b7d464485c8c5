//! One pass over the members that were read, shared by the three decoders.

use vstd::prelude::*;
use crate::error::DecodeError;
use crate::error::Error;
use crate::field::find;
use crate::field::first_bad_version;
use crate::field::first_outcome;
use crate::field::first_repeat;
use crate::field::outcome_count;
use crate::field::views;
use crate::field::Field;
use crate::field::FieldView;
use crate::field::Key;
use crate::field::Kind;
use crate::id::ResponseId;
use crate::version::unsupported_version;
use crate::version::Version;

verus! {

/// What one pass over a list of members has gathered: the first failure of
/// each sort, and the first member under each name.
pub(crate) struct Scan<P> {
    pub bad_version: Option<DecodeError>,
    pub repeated: Option<Key>,
    pub version: bool,
    pub id: Option<ResponseId>,
    pub method: Option<String>,
    pub params: Option<Option<P>>,
    pub outcome: Option<Result<P, Error>>,
    pub many_outcomes: bool,
}

impl<P> Scan<P> {
    /// Whether this is what a pass over `fields` gathers for an envelope of
    /// the given kind.
    pub(crate) open spec fn describes(&self, fields: Seq<FieldView<P>>, kind: Kind) -> bool {
        &&& match self.bad_version {
            Some(error) => first_bad_version(fields) matches Some(found) && error@
                == unsupported_version(found),
            None => first_bad_version(fields) is None,
        }
        &&& self.repeated == first_repeat(fields, kind)
        &&& self.version == (find(fields, Key::Jsonrpc) is Some)
        &&& match self.id {
            Some(id) => find(fields, Key::Id) == Some(FieldView::<P>::Id(id@)),
            None => find(fields, Key::Id) is None,
        }
        &&& match self.method {
            Some(name) => find(fields, Key::Method) == Some(FieldView::<P>::Method(name@)),
            None => find(fields, Key::Method) is None,
        }
        &&& match self.params {
            Some(params) => find(fields, Key::Params) == Some(FieldView::Params(params)),
            None => find(fields, Key::Params) is None,
        }
        &&& match self.outcome {
            Some(Ok(value)) => first_outcome(fields) == Some(FieldView::Result(value)),
            Some(Err(error)) => first_outcome(fields) == Some(FieldView::<P>::Error(error@)),
            None => first_outcome(fields) is None,
        }
        &&& (self.outcome is None) == (outcome_count(fields) == 0)
        &&& self.many_outcomes == (outcome_count(fields) > 1)
    }
}

/// Reads `fields` once, in wire order.
pub(crate) fn scan<P>(fields: Vec<Field<P>>, kind: Kind) -> (out: Scan<P>)
    ensures
        out.describes(views(fields@), kind),
{
    let ghost raw = fields@;
    let ghost all = views(raw);
    let mut bad_version: Option<DecodeError> = None;
    let mut repeated: Option<Key> = None;
    let mut version = false;
    let mut id: Option<ResponseId> = None;
    let mut method: Option<String> = None;
    let mut params: Option<Option<P>> = None;
    let mut outcome: Option<Result<P, Error>> = None;
    let mut many_outcomes = false;
    for field in it: fields
        invariant
            it.seq() == raw,
            all == views(raw),
            (Scan { bad_version, repeated, version, id, method, params, outcome, many_outcomes })
                .describes(all.take(it.index() as int), kind),
    {
        proof {
            let i = it.index() as int;
            assert(all.take(i + 1).drop_last() =~= all.take(i));
            assert(all.take(i + 1).last() == field@);
        }
        let key = field.key();
        let seen = match key {
            Key::Jsonrpc => version,
            Key::Id => id.is_some(),
            Key::Method => method.is_some(),
            Key::Params => params.is_some(),
            _ => false,
        };
        if repeated.is_none() && seen && kind.checks(key) {
            repeated = Some(key);
        }
        match field {
            Field::Jsonrpc(text) => {
                if bad_version.is_none() {
                    if let Err(error) = Version::deserialize(text.as_str()) {
                        bad_version = Some(error);
                    }
                }
                version = true;
            },
            Field::Id(value) => {
                if id.is_none() {
                    id = Some(value);
                }
            },
            Field::Method(name) => {
                if method.is_none() {
                    method = Some(name);
                }
            },
            Field::Params(value) => {
                if params.is_none() {
                    params = Some(value);
                }
            },
            Field::Result(value) => {
                if outcome.is_none() {
                    outcome = Some(Ok(value));
                } else {
                    many_outcomes = true;
                }
            },
            Field::Error(error) => {
                if outcome.is_none() {
                    outcome = Some(Err(error));
                } else {
                    many_outcomes = true;
                }
            },
        }
    }
    proof {
        assert(all.take(all.len() as int) =~= all);
    }
    Scan { bad_version, repeated, version, id, method, params, outcome, many_outcomes }
}

} // verus!

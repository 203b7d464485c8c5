//! The response envelope.

use vstd::prelude::*;
use crate::error::DecodeError;
use crate::error::DecodeErrorView;
use crate::error::Error;
use crate::error::ErrorView;
use crate::field::find;
use crate::field::first_bad_version;
use crate::field::first_outcome;
use crate::field::first_repeat;
use crate::field::lemma_find;
use crate::field::lemma_first_bad_version;
use crate::field::lemma_first_outcome;
use crate::field::lemma_first_repeat;
use crate::field::lemma_outcome_count;
use crate::field::lemma_read_members;
use crate::field::outcome_count;
use crate::field::read_members;
use crate::field::ref_views;
use crate::field::views;
use crate::field::Field;
use crate::field::FieldRef;
use crate::field::FieldView;
use crate::field::Key;
use crate::field::Kind;
use crate::id::IdView;
use crate::id::ResponseId;
use crate::scan::scan;
use crate::version::unsupported_version;
use crate::version::version_literal;
use crate::version::Version;

verus! {

/// The answer to a request: the identifier of the request and either the
/// result of the call or the error that it ended in, never both.
#[derive(Debug, PartialEq)]
pub struct ResponseMessage<T> {
    id: ResponseId,
    kind: Result<T, Error>,
}

/// What a [`ResponseMessage`] stands for.
pub ghost struct ResponseView<T> {
    pub id: IdView,
    pub kind: Result<T, ErrorView>,
}

/// What the outcome of a call stands for.
pub open spec fn kind_view<T>(kind: Result<T, Error>) -> Result<T, ErrorView> {
    match kind {
        Ok(value) => Ok(value),
        Err(error) => Err(error@),
    }
}

impl<T> View for ResponseMessage<T> {
    type V = ResponseView<T>;

    closed spec fn view(&self) -> ResponseView<T> {
        ResponseView { id: self.id@, kind: kind_view(self.kind) }
    }
}

/// The members of a response, in the order in which they are written: the
/// version tag, the identifier, and then the result or the error.
pub open spec fn response_fields<T>(response: ResponseView<T>) -> Seq<FieldView<T>> {
    seq![
        FieldView::Jsonrpc(version_literal()),
        FieldView::Id(response.id),
        match response.kind {
            Ok(value) => FieldView::Result(value),
            Err(error) => FieldView::Error(error),
        },
    ]
}

/// The response that the members `fields` make up, or the reason why they
/// make up none. A version tag other than the accepted literal is reported
/// before anything else, wherever it stands; then a repeated version tag or
/// identifier; then a missing one. After that the members must hold exactly
/// one result or error between them.
pub open spec fn decode_response<T>(fields: Seq<FieldView<T>>) -> Result<
    ResponseView<T>,
    DecodeErrorView,
> {
    if let Some(found) = first_bad_version(fields) {
        Err(unsupported_version(found))
    } else if let Some(key) = first_repeat(fields, Kind::Response) {
        Err(DecodeErrorView::DuplicateField(key))
    } else if find(fields, Key::Jsonrpc) is None {
        Err(DecodeErrorView::MissingField(Key::Jsonrpc))
    } else if let Some(FieldView::Id(id)) = find(fields, Key::Id) {
        if outcome_count(fields) == 0 {
            Err(DecodeErrorView::MissingOutcome)
        } else if outcome_count(fields) > 1 {
            Err(DecodeErrorView::AmbiguousOutcome)
        } else {
            match first_outcome(fields) {
                Some(FieldView::Result(value)) => Ok(ResponseView { id, kind: Ok(value) }),
                Some(FieldView::Error(error)) => Ok(ResponseView { id, kind: Err(error) }),
                _ => Err(DecodeErrorView::MissingOutcome),
            }
        }
    } else {
        Err(DecodeErrorView::MissingField(Key::Id))
    }
}

impl<T> ResponseMessage<T> {
    /// A response to the request `id` with the given outcome.
    pub fn new(id: ResponseId, kind: Result<T, Error>) -> (response: Self)
        ensures
            response@ == (ResponseView { id: id@, kind: kind_view(kind) }),
    {
        ResponseMessage { id, kind }
    }

    /// The identifier and the outcome, by value.
    pub fn into_parts(self) -> (parts: (ResponseId, Result<T, Error>))
        ensures
            parts.0@ == self@.id,
            kind_view(parts.1) == self@.kind,
    {
        (self.id, self.kind)
    }

    /// The identifier of the request that this response answers.
    pub fn id(&self) -> (id: &ResponseId)
        ensures
            id@ == self@.id,
    {
        &self.id
    }

    /// The outcome of the call: its result, or the error that it ended in.
    pub fn kind(&self) -> (kind: Result<&T, &Error>)
        ensures
            match kind {
                Ok(value) => self@.kind == Ok::<T, ErrorView>(*value),
                Err(error) => self@.kind == Err::<T, ErrorView>(error@),
            },
    {
        match &self.kind {
            Ok(value) => Ok(value),
            Err(error) => Err(error),
        }
    }

    /// The members to write for this response, in the order in which they
    /// are to be written.
    pub fn serialize<'a>(&'a self) -> (fields: Vec<FieldRef<'a, T>>)
        ensures
            ref_views(fields@) == response_fields(self@),
    {
        let mut fields: Vec<FieldRef<'a, T>> = Vec::new();
        fields.push(FieldRef::Jsonrpc(Version.serialize()));
        fields.push(FieldRef::Id(&self.id));
        match &self.kind {
            Ok(value) => {
                fields.push(FieldRef::Result(value));
            },
            Err(error) => {
                fields.push(FieldRef::Error(error));
            },
        }
        assert(ref_views(fields@) =~= response_fields(self@));
        fields
    }

    /// Reads a response from the members of an incoming object, given in
    /// wire order.
    pub fn deserialize(fields: Vec<Field<T>>) -> (res: Result<Self, DecodeError>)
        ensures
            match res {
                Ok(response) => decode_response(views(fields@)) == Ok::<
                    ResponseView<T>,
                    DecodeErrorView,
                >(response@),
                Err(error) => decode_response(views(fields@)) == Err::<
                    ResponseView<T>,
                    DecodeErrorView,
                >(error@),
            },
    {
        let found = scan(fields, Kind::Response);
        if let Some(error) = found.bad_version {
            return Err(error);
        }
        if let Some(key) = found.repeated {
            return Err(DecodeError::DuplicateField(key));
        }
        if !found.version {
            return Err(DecodeError::MissingField(Key::Jsonrpc));
        }
        let id = match found.id {
            Some(id) => id,
            None => {
                return Err(DecodeError::MissingField(Key::Id));
            },
        };
        if found.many_outcomes {
            return Err(DecodeError::AmbiguousOutcome);
        }
        match found.outcome {
            Some(kind) => Ok(ResponseMessage { id, kind }),
            None => Err(DecodeError::MissingOutcome),
        }
    }
}

/// Reading the members that were written for a response gives that response
/// back, whatever its identifier and its outcome.
pub proof fn response_round_trip<T>(response: ResponseView<T>)
    ensures
        decode_response(response_fields(response)) == Ok::<ResponseView<T>, DecodeErrorView>(
            response,
        ),
{
    let fields = response_fields(response);
    lemma_first_bad_version(fields);
    lemma_first_repeat(fields, Kind::Response);
    lemma_find(fields, Key::Jsonrpc);
    lemma_find(fields, Key::Id);
    lemma_outcome_count(fields);
    lemma_first_outcome(fields);
    assert(fields[0] == FieldView::<T>::Jsonrpc(version_literal()));
    assert(fields[1] == FieldView::<T>::Id(response.id));
    assert(fields[2].is_outcome());
}

/// A version tag other than the accepted literal, wherever it stands among
/// the members, makes the reading fail, and the failure is that of the
/// version.
pub proof fn response_version_guard<T>(fields: Seq<FieldView<T>>, i: int)
    requires
        0 <= i < fields.len(),
        fields[i].is_bad_version(),
    ensures
        decode_response(fields) matches Err(DecodeErrorView::UnsupportedVersion { found, expected })
            && found != version_literal() && expected == version_literal(),
{
    lemma_first_bad_version(fields);
}

/// Members that hold both a result and an error, or two of either, make the
/// reading fail.
pub proof fn response_rejects_two_outcomes<T>(fields: Seq<FieldView<T>>, i: int, j: int)
    requires
        0 <= i < j < fields.len(),
        fields[i].is_outcome(),
        fields[j].is_outcome(),
    ensures
        decode_response(fields) is Err,
{
    lemma_outcome_count(fields);
}

/// Members that hold neither a result nor an error make the reading fail.
pub proof fn response_rejects_no_outcome<T>(fields: Seq<FieldView<T>>)
    requires
        forall|i: int| 0 <= i < fields.len() ==> !(#[trigger] fields[i]).is_outcome(),
    ensures
        decode_response(fields) is Err,
{
    lemma_outcome_count(fields);
}

/// Members that a response is not read from have no part in the reading:
/// leaving them out changes neither the response that is read nor the
/// failure that is reported.
pub proof fn response_ignores_other_members<T>(fields: Seq<FieldView<T>>)
    ensures
        decode_response(read_members(fields, Kind::Response)) == decode_response(fields),
{
    lemma_read_members(fields, Kind::Response);
    assert(Kind::Response.reads_from(Key::Jsonrpc) && Kind::Response.reads_from(Key::Id));
}

} // verus!

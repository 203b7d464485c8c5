//! The request envelope.

use vstd::prelude::*;
use crate::error::DecodeError;
use crate::error::DecodeErrorView;
use crate::field::find;
use crate::field::first_bad_version;
use crate::field::first_repeat;
use crate::field::lemma_find;
use crate::field::lemma_first_bad_version;
use crate::field::lemma_first_repeat;
use crate::field::lemma_read_members;
use crate::field::read_members;
use crate::field::ref_views;
use crate::field::views;
use crate::field::Field;
use crate::field::FieldRef;
use crate::field::FieldView;
use crate::field::Key;
use crate::field::Kind;
use crate::id::IdView;
use crate::id::ResponseId;
use crate::scan::scan;
use crate::text::text_eq;
use crate::version::unsupported_version;
use crate::version::version_literal;
use crate::version::Version;

verus! {

/// A call that expects a response: an identifier and, where the method takes
/// any, its parameters. The method itself is not stored; it is named when the
/// envelope is written or read.
#[derive(Debug, PartialEq)]
pub struct RequestMessage<P> {
    id: ResponseId,
    params: Option<P>,
}

/// What a [`RequestMessage`] stands for.
pub ghost struct RequestView<P> {
    pub id: IdView,
    pub params: Option<P>,
}

impl<P> View for RequestMessage<P> {
    type V = RequestView<P>;

    closed spec fn view(&self) -> RequestView<P> {
        RequestView { id: self.id@, params: self.params }
    }
}

/// The members of a request for `method`, in the order in which they are
/// written: the version tag, the identifier, the method name and, only where
/// there are any, the parameters.
pub open spec fn request_fields<P>(request: RequestView<P>, method: Seq<char>) -> Seq<
    FieldView<P>,
> {
    let head = seq![
        FieldView::Jsonrpc(version_literal()),
        FieldView::Id(request.id),
        FieldView::Method(method),
    ];
    match request.params {
        Some(params) => head.push(FieldView::Params(Some(params))),
        None => head,
    }
}

/// The request for `method` that the members `fields` make up, or the reason
/// why they make up none. A version tag other than the accepted literal is
/// reported before anything else, wherever it stands; then a repeated member;
/// then a missing one; then a method name other than `method`. Absent
/// parameters and parameters that are `null` both read as no parameters.
pub open spec fn decode_request<P>(fields: Seq<FieldView<P>>, method: Seq<char>) -> Result<
    RequestView<P>,
    DecodeErrorView,
> {
    if let Some(found) = first_bad_version(fields) {
        Err(unsupported_version(found))
    } else if let Some(key) = first_repeat(fields, Kind::Request) {
        Err(DecodeErrorView::DuplicateField(key))
    } else if find(fields, Key::Jsonrpc) is None {
        Err(DecodeErrorView::MissingField(Key::Jsonrpc))
    } else if let Some(FieldView::Id(id)) = find(fields, Key::Id) {
        if let Some(FieldView::Method(name)) = find(fields, Key::Method) {
            if name == method {
                Ok(
                    RequestView {
                        id,
                        params: match find(fields, Key::Params) {
                            Some(FieldView::Params(params)) => params,
                            _ => None,
                        },
                    },
                )
            } else {
                Err(DecodeErrorView::UnexpectedMethod { found: name, expected: method })
            }
        } else {
            Err(DecodeErrorView::MissingField(Key::Method))
        }
    } else {
        Err(DecodeErrorView::MissingField(Key::Id))
    }
}

impl<P> RequestMessage<P> {
    /// A request with the given identifier and parameters.
    pub fn new(id: ResponseId, params: Option<P>) -> (request: Self)
        ensures
            request@ == (RequestView { id: id@, params }),
    {
        RequestMessage { id, params }
    }

    /// The identifier of the request.
    pub fn id(&self) -> (id: &ResponseId)
        ensures
            id@ == self@.id,
    {
        &self.id
    }

    /// The parameters of the request, if it has any.
    pub fn params(&self) -> (params: Option<&P>)
        ensures
            match params {
                Some(value) => self@.params == Some(*value),
                None => self@.params is None,
            },
    {
        self.params.as_ref()
    }

    /// The identifier and the parameters, by value.
    pub fn into_parts(self) -> (parts: (ResponseId, Option<P>))
        ensures
            parts.0@ == self@.id,
            parts.1 == self@.params,
    {
        (self.id, self.params)
    }

    /// The members to write for this request when it calls `method`, in the
    /// order in which they are to be written. Absent parameters give no
    /// member at all.
    pub fn serialize<'a>(&'a self, method: &'a str) -> (fields: Vec<FieldRef<'a, P>>)
        ensures
            ref_views(fields@) == request_fields(self@, method@),
            self@.params is None ==> forall|i: int|
                0 <= i < fields.len() ==> (#[trigger] fields[i])@.key() != Key::Params,
    {
        let mut fields: Vec<FieldRef<'a, P>> = Vec::new();
        fields.push(FieldRef::Jsonrpc(Version.serialize()));
        fields.push(FieldRef::Id(&self.id));
        fields.push(FieldRef::Method(method));
        match &self.params {
            Some(params) => {
                fields.push(FieldRef::Params(params));
            },
            None => {},
        }
        assert(ref_views(fields@) =~= request_fields(self@, method@));
        fields
    }

    /// Reads a request for `method` from the members of an incoming object,
    /// given in wire order.
    pub fn deserialize(fields: Vec<Field<P>>, method: &str) -> (res: Result<Self, DecodeError>)
        ensures
            match res {
                Ok(request) => decode_request(views(fields@), method@) == Ok::<
                    RequestView<P>,
                    DecodeErrorView,
                >(request@),
                Err(error) => decode_request(views(fields@), method@) == Err::<
                    RequestView<P>,
                    DecodeErrorView,
                >(error@),
            },
    {
        let found = scan(fields, Kind::Request);
        if let Some(error) = found.bad_version {
            return Err(error);
        }
        if let Some(key) = found.repeated {
            return Err(DecodeError::DuplicateField(key));
        }
        if !found.version {
            return Err(DecodeError::MissingField(Key::Jsonrpc));
        }
        let id = match found.id {
            Some(id) => id,
            None => {
                return Err(DecodeError::MissingField(Key::Id));
            },
        };
        let name = match found.method {
            Some(name) => name,
            None => {
                return Err(DecodeError::MissingField(Key::Method));
            },
        };
        if !text_eq(name.as_str(), method) {
            return Err(DecodeError::UnexpectedMethod { found: name, expected: method.to_owned() });
        }
        let params = match found.params {
            Some(params) => params,
            None => None,
        };
        Ok(RequestMessage { id, params })
    }
}

/// Reading the members that were written for a request gives that request
/// back, whatever its identifier, its parameters and the method.
pub proof fn request_round_trip<P>(request: RequestView<P>, method: Seq<char>)
    ensures
        decode_request(request_fields(request, method), method) == Ok::<
            RequestView<P>,
            DecodeErrorView,
        >(request),
{
    let fields = request_fields(request, method);
    lemma_first_bad_version(fields);
    lemma_first_repeat(fields, Kind::Request);
    lemma_find(fields, Key::Jsonrpc);
    lemma_find(fields, Key::Id);
    lemma_find(fields, Key::Method);
    lemma_find(fields, Key::Params);
    assert(fields[0] == FieldView::<P>::Jsonrpc(version_literal()));
    assert(fields[1] == FieldView::<P>::Id(request.id));
    assert(fields[2] == FieldView::<P>::Method(method));
    if request.params is Some {
        assert(fields[3] == FieldView::Params(request.params));
    }
}

/// A version tag other than the accepted literal, wherever it stands among
/// the members, makes the reading fail, and the failure is that of the
/// version.
pub proof fn request_version_guard<P>(fields: Seq<FieldView<P>>, method: Seq<char>, i: int)
    requires
        0 <= i < fields.len(),
        fields[i].is_bad_version(),
    ensures
        decode_request(fields, method) matches Err(DecodeErrorView::UnsupportedVersion { found, expected })
            && found != version_literal() && expected == version_literal(),
{
    lemma_first_bad_version(fields);
}

/// A method name other than that of the method asked for, wherever it stands
/// among the members, makes the reading fail, whatever the other members
/// hold.
pub proof fn request_method_guard<P>(fields: Seq<FieldView<P>>, method: Seq<char>, i: int)
    requires
        0 <= i < fields.len(),
        fields[i] matches FieldView::Method(name) && name != method,
    ensures
        decode_request(fields, method) is Err,
{
    lemma_first_repeat(fields, Kind::Request);
    lemma_find(fields, Key::Method);
    if first_repeat(fields, Kind::Request) is None {
        let member = find(fields, Key::Method)->0;
        let first = choose|j: int| 0 <= j < fields.len() && #[trigger] fields[j] == member;
        if first < i {
            assert(fields[first].key() == fields[i].key());
        } else if i < first {
            assert(fields[i].key() == fields[first].key());
        }
    }
}

/// Members that a request is not read from have no part in the reading:
/// leaving them out changes neither the request that is read nor the failure
/// that is reported.
pub proof fn request_ignores_other_members<P>(fields: Seq<FieldView<P>>, method: Seq<char>)
    ensures
        decode_request(read_members(fields, Kind::Request), method) == decode_request(
            fields,
            method,
        ),
{
    lemma_read_members(fields, Kind::Request);
    assert(Kind::Request.reads_from(Key::Jsonrpc) && Kind::Request.reads_from(Key::Id)
        && Kind::Request.reads_from(Key::Method) && Kind::Request.reads_from(Key::Params));
}

} // verus!

//! The notification envelope.

use vstd::prelude::*;
use crate::error::DecodeError;
use crate::error::DecodeErrorView;
use crate::field::find;
use crate::field::first_bad_version;
use crate::field::first_repeat;
use crate::field::lemma_find;
use crate::field::lemma_first_bad_version;
use crate::field::lemma_first_repeat;
use crate::field::lemma_read_members;
use crate::field::read_members;
use crate::field::ref_views;
use crate::field::views;
use crate::field::Field;
use crate::field::FieldRef;
use crate::field::FieldView;
use crate::field::Key;
use crate::field::Kind;
use crate::scan::scan;
use crate::text::text_eq;
use crate::version::unsupported_version;
use crate::version::version_literal;
use crate::version::Version;

verus! {

/// A call that expects no response. It has no identifier, so nothing is ever
/// matched against it.
#[derive(Debug, PartialEq)]
pub struct NotificationMessage<P> {
    params: Option<P>,
}

/// What a [`NotificationMessage`] stands for.
pub ghost struct NotificationView<P> {
    pub params: Option<P>,
}

impl<P> View for NotificationMessage<P> {
    type V = NotificationView<P>;

    closed spec fn view(&self) -> NotificationView<P> {
        NotificationView { params: self.params }
    }
}

/// The members of a notification of `method`, in the order in which they are
/// written: the version tag, the method name and, only where there are any,
/// the parameters.
pub open spec fn notification_fields<P>(
    notification: NotificationView<P>,
    method: Seq<char>,
) -> Seq<FieldView<P>> {
    let head = seq![FieldView::Jsonrpc(version_literal()), FieldView::Method(method)];
    match notification.params {
        Some(params) => head.push(FieldView::Params(Some(params))),
        None => head,
    }
}

/// The notification of `method` that the members `fields` make up, or the
/// reason why they make up none. Failures are reported in the order in which
/// a request reports them; an identifier among the members is passed over.
pub open spec fn decode_notification<P>(fields: Seq<FieldView<P>>, method: Seq<char>) -> Result<
    NotificationView<P>,
    DecodeErrorView,
> {
    if let Some(found) = first_bad_version(fields) {
        Err(unsupported_version(found))
    } else if let Some(key) = first_repeat(fields, Kind::Notification) {
        Err(DecodeErrorView::DuplicateField(key))
    } else if find(fields, Key::Jsonrpc) is None {
        Err(DecodeErrorView::MissingField(Key::Jsonrpc))
    } else if let Some(FieldView::Method(name)) = find(fields, Key::Method) {
        if name == method {
            Ok(
                NotificationView {
                    params: match find(fields, Key::Params) {
                        Some(FieldView::Params(params)) => params,
                        _ => None,
                    },
                },
            )
        } else {
            Err(DecodeErrorView::UnexpectedMethod { found: name, expected: method })
        }
    } else {
        Err(DecodeErrorView::MissingField(Key::Method))
    }
}

impl<P> NotificationMessage<P> {
    /// A notification with the given parameters.
    pub fn new(params: Option<P>) -> (notification: Self)
        ensures
            notification@ == (NotificationView { params }),
    {
        NotificationMessage { params }
    }

    /// The parameters of the notification, if it has any.
    pub fn params(&self) -> (params: Option<&P>)
        ensures
            match params {
                Some(value) => self@.params == Some(*value),
                None => self@.params is None,
            },
    {
        self.params.as_ref()
    }

    /// The parameters, by value.
    pub fn into_params(self) -> (params: Option<P>)
        ensures
            params == self@.params,
    {
        self.params
    }

    /// The members to write for this notification of `method`, in the order
    /// in which they are to be written. Absent parameters give no member at
    /// all.
    pub fn serialize<'a>(&'a self, method: &'a str) -> (fields: Vec<FieldRef<'a, P>>)
        ensures
            ref_views(fields@) == notification_fields(self@, method@),
            self@.params is None ==> forall|i: int|
                0 <= i < fields.len() ==> (#[trigger] fields[i])@.key() != Key::Params,
    {
        let mut fields: Vec<FieldRef<'a, P>> = Vec::new();
        fields.push(FieldRef::Jsonrpc(Version.serialize()));
        fields.push(FieldRef::Method(method));
        match &self.params {
            Some(params) => {
                fields.push(FieldRef::Params(params));
            },
            None => {},
        }
        assert(ref_views(fields@) =~= notification_fields(self@, method@));
        fields
    }

    /// Reads a notification of `method` from the members of an incoming
    /// object, given in wire order.
    pub fn deserialize(fields: Vec<Field<P>>, method: &str) -> (res: Result<Self, DecodeError>)
        ensures
            match res {
                Ok(notification) => decode_notification(views(fields@), method@) == Ok::<
                    NotificationView<P>,
                    DecodeErrorView,
                >(notification@),
                Err(error) => decode_notification(views(fields@), method@) == Err::<
                    NotificationView<P>,
                    DecodeErrorView,
                >(error@),
            },
    {
        let found = scan(fields, Kind::Notification);
        if let Some(error) = found.bad_version {
            return Err(error);
        }
        if let Some(key) = found.repeated {
            return Err(DecodeError::DuplicateField(key));
        }
        if !found.version {
            return Err(DecodeError::MissingField(Key::Jsonrpc));
        }
        let name = match found.method {
            Some(name) => name,
            None => {
                return Err(DecodeError::MissingField(Key::Method));
            },
        };
        if !text_eq(name.as_str(), method) {
            return Err(DecodeError::UnexpectedMethod { found: name, expected: method.to_owned() });
        }
        let params = match found.params {
            Some(params) => params,
            None => None,
        };
        Ok(NotificationMessage { params })
    }
}

/// Reading the members that were written for a notification gives that
/// notification back, whatever its parameters and the method.
pub proof fn notification_round_trip<P>(notification: NotificationView<P>, method: Seq<char>)
    ensures
        decode_notification(notification_fields(notification, method), method) == Ok::<
            NotificationView<P>,
            DecodeErrorView,
        >(notification),
{
    let fields = notification_fields(notification, method);
    lemma_first_bad_version(fields);
    lemma_first_repeat(fields, Kind::Notification);
    lemma_find(fields, Key::Jsonrpc);
    lemma_find(fields, Key::Method);
    lemma_find(fields, Key::Params);
    assert(fields[0] == FieldView::<P>::Jsonrpc(version_literal()));
    assert(fields[1] == FieldView::<P>::Method(method));
    if notification.params is Some {
        assert(fields[2] == FieldView::Params(notification.params));
    }
}

/// A version tag other than the accepted literal, wherever it stands among
/// the members, makes the reading fail, and the failure is that of the
/// version.
pub proof fn notification_version_guard<P>(fields: Seq<FieldView<P>>, method: Seq<char>, i: int)
    requires
        0 <= i < fields.len(),
        fields[i].is_bad_version(),
    ensures
        decode_notification(fields, method) matches Err(DecodeErrorView::UnsupportedVersion { found, expected })
            && found != version_literal() && expected == version_literal(),
{
    lemma_first_bad_version(fields);
}

/// A method name other than that of the method asked for, wherever it stands
/// among the members, makes the reading fail, whatever the other members
/// hold.
pub proof fn notification_method_guard<P>(fields: Seq<FieldView<P>>, method: Seq<char>, i: int)
    requires
        0 <= i < fields.len(),
        fields[i] matches FieldView::Method(name) && name != method,
    ensures
        decode_notification(fields, method) is Err,
{
    lemma_first_repeat(fields, Kind::Notification);
    lemma_find(fields, Key::Method);
    if first_repeat(fields, Kind::Notification) is None {
        let member = find(fields, Key::Method)->0;
        let first = choose|j: int| 0 <= j < fields.len() && #[trigger] fields[j] == member;
        if first < i {
            assert(fields[first].key() == fields[i].key());
        } else if i < first {
            assert(fields[i].key() == fields[first].key());
        }
    }
}

/// Members that a notification is not read from, an identifier among them,
/// have no part in the reading: leaving them out changes neither the
/// notification that is read nor the failure that is reported.
pub proof fn notification_ignores_other_members<P>(fields: Seq<FieldView<P>>, method: Seq<char>)
    ensures
        decode_notification(read_members(fields, Kind::Notification), method)
            == decode_notification(fields, method),
{
    lemma_read_members(fields, Kind::Notification);
    assert(Kind::Notification.reads_from(Key::Jsonrpc) && Kind::Notification.reads_from(
        Key::Method,
    ) && Kind::Notification.reads_from(Key::Params));
}

} // verus!

//! Operations on `/audiences/:id/contacts` endpoints: the payload types,
//! their builders, and the mapping from each typed call to the request the
//! dispatcher sends.

use std::sync::Arc;

use vstd::prelude::*;
use vstd::utf8::encode_utf8;

use crate::config::{built_json_request, built_request, joined_url, request_view, Config};
use crate::jsonfmt::{
    comma_sep, json_bool, json_string, write_comma_sep, write_json_bool, write_json_string,
};
use crate::request::{Method, Request};

verus! {

/// Facade for `/audiences/:id/contacts` endpoints, bound to the shared
/// dispatcher of its client handle.
#[derive(Clone)]
pub struct Contacts(pub Arc<Config>);

/// The payload for creating a contact inside an audience.
#[must_use]
#[derive(Debug, Clone)]
pub struct CreateContactRequest {
    /// Email address of the contact.
    pub email: String,
    /// First name of the contact.
    pub first_name: Option<String>,
    /// Last name of the contact.
    pub last_name: Option<String>,
    /// Indicates if the contact is unsubscribed.
    pub unsubscribed: Option<bool>,
    /// Unique identifier of the audience to which the contact belongs.
    pub audience_id: Option<String>,
}

impl CreateContactRequest {
    /// Creates a new payload for the given address, with every optional
    /// field absent.
    pub fn new(email: &str) -> (r: CreateContactRequest)
        ensures
            r.email@ == email@,
            r.first_name is None,
            r.last_name is None,
            r.unsubscribed is None,
            r.audience_id is None,
    {
        CreateContactRequest {
            email: email.to_owned(),
            first_name: None,
            last_name: None,
            unsubscribed: None,
            audience_id: None,
        }
    }

    /// Adds or overwrites the first name of the contact.
    pub fn with_first_name(self, name: &str) -> (r: Self)
        ensures
            r.first_name matches Some(n) && n@ == name@,
            r.email == self.email,
            r.last_name == self.last_name,
            r.unsubscribed == self.unsubscribed,
            r.audience_id == self.audience_id,
    {
        Self { first_name: Some(name.to_owned()), ..self }
    }

    /// Adds or overwrites the last name of the contact.
    pub fn with_last_name(self, name: &str) -> (r: Self)
        ensures
            r.last_name matches Some(n) && n@ == name@,
            r.email == self.email,
            r.first_name == self.first_name,
            r.unsubscribed == self.unsubscribed,
            r.audience_id == self.audience_id,
    {
        Self { last_name: Some(name.to_owned()), ..self }
    }

    /// Sets the subscription status of the contact.
    pub fn with_unsubscribed(self, unsubscribed: bool) -> (r: Self)
        ensures
            r.unsubscribed == Some(unsubscribed),
            r.email == self.email,
            r.first_name == self.first_name,
            r.last_name == self.last_name,
            r.audience_id == self.audience_id,
    {
        Self { unsubscribed: Some(unsubscribed), ..self }
    }

    /// Attaches the contact to an audience.
    pub fn with_audience(self, id: &str) -> (r: Self)
        ensures
            r.audience_id matches Some(a) && a@ == id@,
            r.email == self.email,
            r.first_name == self.first_name,
            r.last_name == self.last_name,
            r.unsubscribed == self.unsubscribed,
    {
        Self { audience_id: Some(id.to_owned()), ..self }
    }
}

/// The decoded response to creating a contact.
#[derive(Debug, Clone)]
pub struct CreateContactResponse {
    /// Type of the response object.
    pub object: Option<String>,
    /// Unique identifier for the created contact.
    pub id: Option<String>,
}

/// The decoded response to listing the contacts of an audience.
#[must_use]
#[derive(Debug, Clone)]
pub struct ListContactsResponse {
    /// Type of the response object.
    pub object: Option<String>,
    /// Array containing contact information.
    pub data: Option<Vec<ListContactsItem>>,
}

/// The decoded response to retrieving a single contact.
#[must_use]
#[derive(Debug, Clone)]
pub struct GetContactResponse {
    /// Type of the response object.
    pub object: Option<String>,
    /// Unique identifier for the contact.
    pub id: Option<String>,
    /// Email address of the contact.
    pub email: Option<String>,
    /// First name of the contact.
    pub first_name: Option<String>,
    /// Last name of the contact.
    pub last_name: Option<String>,
    /// Timestamp indicating when the contact was created.
    pub created_at: Option<String>,
    /// Indicates if the contact is unsubscribed.
    pub unsubscribed: Option<bool>,
}

/// The payload for updating an existing contact; absent fields are left
/// untouched by the service.
#[must_use]
#[derive(Debug, Clone)]
pub struct UpdateContactRequest {
    /// Email address of the contact.
    pub email: Option<String>,
    /// First name of the contact.
    pub first_name: Option<String>,
    /// Last name of the contact.
    pub last_name: Option<String>,
    /// Indicates the subscription status of the contact.
    pub unsubscribed: Option<bool>,
}

/// The decoded response to updating a contact.
#[derive(Debug, Clone)]
pub struct UpdateContactResponse {
    /// Type of the response object.
    pub object: Option<String>,
    /// Unique identifier for the updated contact.
    pub id: Option<String>,
}

/// The JSON text of a contact-creation payload: the address, then each
/// present optional field, in declared order.
pub open spec fn json_of_create_contact(c: CreateContactRequest) -> Seq<char> {
    "{\"email\":"@ + json_string(c.email@) + (match c.first_name {
        Some(n) => ",\"first_name\":"@ + json_string(n@),
        None => Seq::<char>::empty(),
    }) + (match c.last_name {
        Some(n) => ",\"last_name\":"@ + json_string(n@),
        None => Seq::<char>::empty(),
    }) + (match c.unsubscribed {
        Some(b) => ",\"unsubscribed\":"@ + json_bool(b),
        None => Seq::<char>::empty(),
    }) + (match c.audience_id {
        Some(a) => ",\"audience_id\":"@ + json_string(a@),
        None => Seq::<char>::empty(),
    }) + "}"@
}

impl CreateContactRequest {
    /// Renders the payload as the JSON text the service expects.
    pub fn to_json(&self) -> (r: String)
        ensures
            r@ == json_of_create_contact(*self),
    {
        let mut out = String::from_str("{\"email\":");
        write_json_string(&mut out, self.email.as_str());
        let ghost p1 = out@;
        match &self.first_name {
            Some(n) => {
                out.append(",\"first_name\":");
                write_json_string(&mut out, n.as_str());
            },
            None => {},
        }
        proof {
            assert(out@ =~= p1 + (match self.first_name {
                Some(n) => ",\"first_name\":"@ + json_string(n@),
                None => Seq::<char>::empty(),
            }));
        }
        let ghost p2 = out@;
        match &self.last_name {
            Some(n) => {
                out.append(",\"last_name\":");
                write_json_string(&mut out, n.as_str());
            },
            None => {},
        }
        proof {
            assert(out@ =~= p2 + (match self.last_name {
                Some(n) => ",\"last_name\":"@ + json_string(n@),
                None => Seq::<char>::empty(),
            }));
        }
        let ghost p3 = out@;
        match self.unsubscribed {
            Some(b) => {
                out.append(",\"unsubscribed\":");
                write_json_bool(&mut out, b);
            },
            None => {},
        }
        proof {
            assert(out@ =~= p3 + (match self.unsubscribed {
                Some(b) => ",\"unsubscribed\":"@ + json_bool(b),
                None => Seq::<char>::empty(),
            }));
        }
        let ghost p4 = out@;
        match &self.audience_id {
            Some(a) => {
                out.append(",\"audience_id\":");
                write_json_string(&mut out, a.as_str());
            },
            None => {},
        }
        proof {
            assert(out@ =~= p4 + (match self.audience_id {
                Some(a) => ",\"audience_id\":"@ + json_string(a@),
                None => Seq::<char>::empty(),
            }));
        }
        out.append("}");
        proof {
            assert(out@ =~= json_of_create_contact(*self));
        }
        out
    }
}

/// The present fields of a contact-update payload, each rendered, in
/// declared order.
pub open spec fn update_contact_fields(u: UpdateContactRequest) -> Seq<Seq<char>> {
    (match u.email {
        Some(e) => seq!["\"email\":"@ + json_string(e@)],
        None => Seq::<Seq<char>>::empty(),
    }) + (match u.first_name {
        Some(n) => seq!["\"first_name\":"@ + json_string(n@)],
        None => Seq::<Seq<char>>::empty(),
    }) + (match u.last_name {
        Some(n) => seq!["\"last_name\":"@ + json_string(n@)],
        None => Seq::<Seq<char>>::empty(),
    }) + (match u.unsubscribed {
        Some(b) => seq!["\"unsubscribed\":"@ + json_bool(b)],
        None => Seq::<Seq<char>>::empty(),
    })
}

/// The JSON text of a contact-update payload: an object of the present
/// fields.
pub open spec fn json_of_update_contact(u: UpdateContactRequest) -> Seq<char> {
    seq!['{'] + comma_sep(update_contact_fields(u)) + seq!['}']
}

impl UpdateContactRequest {
    /// Renders the payload as the JSON text the service expects.
    pub fn to_json(&self) -> (r: String)
        ensures
            r@ == json_of_update_contact(*self),
    {
        let mut parts: Vec<String> = Vec::new();
        match &self.email {
            Some(e) => {
                let mut f = String::from_str("\"email\":");
                write_json_string(&mut f, e.as_str());
                parts.push(f);
            },
            None => {},
        }
        proof {
            assert(parts.deep_view() =~= (match self.email {
                Some(e) => seq!["\"email\":"@ + json_string(e@)],
                None => Seq::<Seq<char>>::empty(),
            }));
        }
        let ghost q1 = parts.deep_view();
        match &self.first_name {
            Some(n) => {
                let mut f = String::from_str("\"first_name\":");
                write_json_string(&mut f, n.as_str());
                parts.push(f);
            },
            None => {},
        }
        proof {
            assert(parts.deep_view() =~= q1 + (match self.first_name {
                Some(n) => seq!["\"first_name\":"@ + json_string(n@)],
                None => Seq::<Seq<char>>::empty(),
            }));
        }
        let ghost q2 = parts.deep_view();
        match &self.last_name {
            Some(n) => {
                let mut f = String::from_str("\"last_name\":");
                write_json_string(&mut f, n.as_str());
                parts.push(f);
            },
            None => {},
        }
        proof {
            assert(parts.deep_view() =~= q2 + (match self.last_name {
                Some(n) => seq!["\"last_name\":"@ + json_string(n@)],
                None => Seq::<Seq<char>>::empty(),
            }));
        }
        let ghost q3 = parts.deep_view();
        match self.unsubscribed {
            Some(b) => {
                let mut f = String::from_str("\"unsubscribed\":");
                write_json_bool(&mut f, b);
                parts.push(f);
            },
            None => {},
        }
        proof {
            assert(parts.deep_view() =~= q3 + (match self.unsubscribed {
                Some(b) => seq!["\"unsubscribed\":"@ + json_bool(b)],
                None => Seq::<Seq<char>>::empty(),
            }));
            assert(parts.deep_view() =~= update_contact_fields(*self));
        }
        let mut out = String::new();
        crate::jsonfmt::push_char(&mut out, '{');
        write_comma_sep(&mut out, &parts);
        crate::jsonfmt::push_char(&mut out, '}');
        proof {
            assert(out@ =~= json_of_update_contact(*self));
        }
        out
    }
}

/// The resource path of the contact collection of an audience.
pub open spec fn contacts_path(audience_id: Seq<char>) -> Seq<char> {
    "/audiences/"@ + audience_id + "/contacts"@
}

/// The resource path of one contact of an audience, by contact id or email.
pub open spec fn contact_path(audience_id: Seq<char>, contact_id: Seq<char>) -> Seq<char> {
    "/audiences/"@ + audience_id + "/contacts/"@ + contact_id
}

fn make_contacts_path(audience_id: &str) -> (r: String)
    ensures
        r@ == contacts_path(audience_id@),
{
    let mut out = String::from_str("/audiences/");
    out.append(audience_id);
    out.append("/contacts");
    proof {
        assert(out@ =~= contacts_path(audience_id@));
    }
    out
}

fn make_contact_path(audience_id: &str, contact_id: &str) -> (r: String)
    ensures
        r@ == contact_path(audience_id@, contact_id@),
{
    let mut out = String::from_str("/audiences/");
    out.append(audience_id);
    out.append("/contacts/");
    out.append(contact_id);
    proof {
        assert(out@ =~= contact_path(audience_id@, contact_id@));
    }
    out
}

impl Contacts {
    /// The request that creates a contact inside an audience: a POST to the
    /// audience's contact collection carrying the payload as JSON.  `None`
    /// exactly when the path does not resolve against the base URL.
    pub fn add_request(&self, audience_id: &str, contact: &CreateContactRequest) -> (r: Option<
        Request,
    >)
        ensures
            r is Some <==> joined_url((*self.0).base_url@, contacts_path(audience_id@)) is Some,
            r matches Some(req) ==> request_view(req) == built_json_request(
                (*self.0).api_key@,
                (*self.0).user_agent@,
                (*self.0).base_url@,
                Method::Post,
                contacts_path(audience_id@),
                encode_utf8(json_of_create_contact(*contact)),
            ),
    {
        let path = make_contacts_path(audience_id);
        match self.0.try_build(Method::Post, path.as_str()) {
            Some(req) => {
                let json = contact.to_json();
                let body = json.as_str().as_bytes_vec();
                let decorated = req.with_json_body(body);
                proof {
                    assert(request_view(decorated).2 =~= request_view(req).2.push(
                        ("Content-Type"@, "application/json"@),
                    ));
                    assert(request_view(decorated) == built_json_request(
                        (*self.0).api_key@,
                        (*self.0).user_agent@,
                        (*self.0).base_url@,
                        Method::Post,
                        contacts_path(audience_id@),
                        encode_utf8(json_of_create_contact(*contact)),
                    ));
                }
                Some(decorated)
            },
            None => None,
        }
    }

    /// The request that retrieves a single contact from an audience: a GET
    /// of the contact's path.  `None` exactly when the path does not
    /// resolve against the base URL.
    pub fn retrieve_request(&self, contact_id: &str, audience_id: &str) -> (r: Option<Request>)
        ensures
            r is Some <==> joined_url(
                (*self.0).base_url@,
                contact_path(audience_id@, contact_id@),
            ) is Some,
            r matches Some(req) ==> request_view(req) == built_request(
                (*self.0).api_key@,
                (*self.0).user_agent@,
                (*self.0).base_url@,
                Method::Get,
                contact_path(audience_id@, contact_id@),
            ),
    {
        let path = make_contact_path(audience_id, contact_id);
        self.0.try_build(Method::Get, path.as_str())
    }

    /// The request that updates an existing contact: a PATCH of the
    /// contact's path carrying the payload as JSON.  `None` exactly when
    /// the path does not resolve against the base URL.
    pub fn update_request(
        &self,
        contact_id: &str,
        audience_id: &str,
        contact: &UpdateContactRequest,
    ) -> (r: Option<Request>)
        ensures
            r is Some <==> joined_url(
                (*self.0).base_url@,
                contact_path(audience_id@, contact_id@),
            ) is Some,
            r matches Some(req) ==> request_view(req) == built_json_request(
                (*self.0).api_key@,
                (*self.0).user_agent@,
                (*self.0).base_url@,
                Method::Patch,
                contact_path(audience_id@, contact_id@),
                encode_utf8(json_of_update_contact(*contact)),
            ),
    {
        let path = make_contact_path(audience_id, contact_id);
        match self.0.try_build(Method::Patch, path.as_str()) {
            Some(req) => {
                let json = contact.to_json();
                let body = json.as_str().as_bytes_vec();
                let decorated = req.with_json_body(body);
                proof {
                    assert(request_view(decorated).2 =~= request_view(req).2.push(
                        ("Content-Type"@, "application/json"@),
                    ));
                    assert(request_view(decorated) == built_json_request(
                        (*self.0).api_key@,
                        (*self.0).user_agent@,
                        (*self.0).base_url@,
                        Method::Patch,
                        contact_path(audience_id@, contact_id@),
                        encode_utf8(json_of_update_contact(*contact)),
                    ));
                }
                Some(decorated)
            },
            None => None,
        }
    }

    /// The request that removes a contact from an audience, by contact id
    /// or email: a DELETE of the contact's path.  `None` exactly when the
    /// path does not resolve against the base URL.
    pub fn delete_request(&self, audience_id: &str, email_or_id: &str) -> (r: Option<Request>)
        ensures
            r is Some <==> joined_url(
                (*self.0).base_url@,
                contact_path(audience_id@, email_or_id@),
            ) is Some,
            r matches Some(req) ==> request_view(req) == built_request(
                (*self.0).api_key@,
                (*self.0).user_agent@,
                (*self.0).base_url@,
                Method::Delete,
                contact_path(audience_id@, email_or_id@),
            ),
    {
        let path = make_contact_path(audience_id, email_or_id);
        self.0.try_build(Method::Delete, path.as_str())
    }

    /// The request that lists all contacts of an audience: a GET of the
    /// audience's contact collection.  `None` exactly when the path does
    /// not resolve against the base URL.
    pub fn list_request(&self, audience_id: &str) -> (r: Option<Request>)
        ensures
            r is Some <==> joined_url((*self.0).base_url@, contacts_path(audience_id@)) is Some,
            r matches Some(req) ==> request_view(req) == built_request(
                (*self.0).api_key@,
                (*self.0).user_agent@,
                (*self.0).base_url@,
                Method::Get,
                contacts_path(audience_id@),
            ),
    {
        let path = make_contacts_path(audience_id);
        self.0.try_build(Method::Get, path.as_str())
    }
}

/// One contact in a listing.
#[must_use]
#[derive(Debug, Clone)]
pub struct ListContactsItem {
    /// Unique identifier for the contact.
    pub id: Option<String>,
    /// Email address of the contact.
    pub email: Option<String>,
    /// First name of the contact.
    pub first_name: Option<String>,
    /// Last name of the contact.
    pub last_name: Option<String>,
    /// Timestamp indicating when the contact was created.
    pub created_at: Option<String>,
    /// Indicates if the contact is unsubscribed.
    pub unsubscribed: Option<bool>,
}

} // verus!

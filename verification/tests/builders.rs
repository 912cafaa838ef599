use resend_rs::client::Client;
use resend_rs::contacts::{CreateContactRequest, UpdateContactRequest};
use resend_rs::emails::{Attachment, ContentOrPath, CreateEmailBaseOptions, EmailId, Tag};
use resend_rs::request::Method;

fn client() -> Client {
    Client::with_client("re_test_key", reqwest::Client::builder().build().unwrap()).unwrap()
}

#[test]
fn contact_builder_accumulates_fields() {
    let c = CreateContactRequest::new("steve.wozniak@gmail.com")
        .with_first_name("Steve")
        .with_last_name("Wozniak")
        .with_unsubscribed(false)
        .with_audience("78261eea-8f8b-4381-83c6-79fa7120f1cf");
    assert_eq!(c.email, "steve.wozniak@gmail.com");
    assert_eq!(c.first_name.as_deref(), Some("Steve"));
    assert_eq!(c.last_name.as_deref(), Some("Wozniak"));
    assert_eq!(c.unsubscribed, Some(false));
    assert_eq!(c.audience_id.as_deref(), Some("78261eea-8f8b-4381-83c6-79fa7120f1cf"));
}

#[test]
fn contact_payload_renders_in_declared_order() {
    let c = CreateContactRequest::new("a@b.c").with_first_name("Ann");
    assert_eq!(c.to_json(), "{\"email\":\"a@b.c\",\"first_name\":\"Ann\"}");
}

#[test]
fn contact_payload_escapes_string_values() {
    let c = CreateContactRequest::new("a@b.c").with_first_name("A\"B\\C\nD\u{1}");
    assert_eq!(
        c.to_json(),
        "{\"email\":\"a@b.c\",\"first_name\":\"A\\\"B\\\\C\\nD\\u0001\"}"
    );
}

#[test]
fn update_payload_renders_only_present_fields() {
    let u = UpdateContactRequest {
        email: None,
        first_name: Some("Ann".to_owned()),
        last_name: None,
        unsubscribed: Some(true),
    };
    assert_eq!(u.to_json(), "{\"first_name\":\"Ann\",\"unsubscribed\":true}");
    let empty = UpdateContactRequest {
        email: None,
        first_name: None,
        last_name: None,
        unsubscribed: None,
    };
    assert_eq!(empty.to_json(), "{}");
}

#[test]
fn email_id_round_trips() {
    let id = EmailId::new("49a3999c-0ce1-4ea6-ab68-afcd6dc2e794");
    assert_eq!(id.as_str(), "49a3999c-0ce1-4ea6-ab68-afcd6dc2e794");
}

#[test]
fn tag_and_attachment_builders_set_their_fields() {
    let t = Tag::new("category", "confirm_email");
    assert_eq!(t.name, "category");
    assert_eq!(t.value, "confirm_email");
    let a = Attachment::from_path("https://example.com/file.pdf")
        .with_filename("file.pdf")
        .with_content_type("application/pdf");
    assert!(matches!(a.content_or_path, ContentOrPath::Path(ref p) if p == "https://example.com/file.pdf"));
    assert_eq!(a.filename.as_deref(), Some("file.pdf"));
    assert_eq!(a.content_type.as_deref(), Some("application/pdf"));
    let b = Attachment::from_content(vec![1, 2, 3]);
    assert!(matches!(b.content_or_path, ContentOrPath::Content(ref c) if c == &vec![1, 2, 3]));
}

#[test]
fn email_builder_accumulates_recipients_and_headers() {
    let to = vec!["delivered@resend.dev".to_owned()];
    let email = CreateEmailBaseOptions::new("from@x.dev", to, "subject")
        .with_bcc("bcc1@x.dev")
        .with_bcc("bcc2@x.dev")
        .with_cc("cc@x.dev")
        .with_reply("reply@x.dev")
        .with_header("X-One", "1")
        .with_header("X-Two", "2")
        .with_header("X-One", "later");
    assert_eq!(email.bcc.as_ref().unwrap().len(), 2);
    assert_eq!(email.cc.as_ref().unwrap().len(), 1);
    assert_eq!(email.reply_to.as_ref().unwrap().len(), 1);
    // Last write wins, names stay unrepeated.
    assert_eq!(email.headers.len(), 2);
    assert_eq!(email.headers[0], ("X-Two".to_owned(), "2".to_owned()));
    assert_eq!(email.headers[1], ("X-One".to_owned(), "later".to_owned()));
}

#[test]
fn email_payload_renders_every_present_part() {
    let to = vec!["delivered@resend.dev".to_owned()];
    let email = CreateEmailBaseOptions::new("from@x.dev", to, "hi")
        .with_text("body")
        .with_header("X-K", "v")
        .with_attachment(Attachment::from_content(vec![0, 10, 100, 255]))
        .with_tag(Tag::new("category", "confirm_email"));
    assert_eq!(
        email.to_json(),
        "{\"from\":\"from@x.dev\",\"to\":[\"delivered@resend.dev\"],\"subject\":\"hi\",\
         \"text\":\"body\",\"headers\":{\"X-K\":\"v\"},\
         \"attachments\":[{\"content\":[0,10,100,255]}],\
         \"tags\":[{\"name\":\"category\",\"value\":\"confirm_email\"}]}"
    );
}

#[test]
fn byte_array_renders_every_digit_width() {
    let to = vec!["a@b.c".to_owned()];
    let email = CreateEmailBaseOptions::new("f@x.dev", to, "s")
        .with_attachment(Attachment::from_content(vec![0, 9, 10, 99, 100, 255]));
    assert_eq!(
        email.to_json(),
        "{\"from\":\"f@x.dev\",\"to\":[\"a@b.c\"],\"subject\":\"s\",\
         \"attachments\":[{\"content\":[0,9,10,99,100,255]}]}"
    );
}

#[test]
fn named_control_escapes_render_as_escapes() {
    let c = CreateContactRequest::new("a@b.c").with_first_name("\u{8}\u{c}\t\r");
    assert_eq!(
        c.to_json(),
        "{\"email\":\"a@b.c\",\"first_name\":\"\\b\\f\\t\\r\"}"
    );
}

#[test]
fn empty_recipient_list_and_strings_render_empty() {
    let email = CreateEmailBaseOptions::new("", Vec::new(), "");
    assert_eq!(email.to_json(), "{\"from\":\"\",\"to\":[],\"subject\":\"\"}");
    let c = CreateContactRequest::new("");
    assert_eq!(c.to_json(), "{\"email\":\"\"}");
}

#[test]
fn attachment_with_optional_fields_renders_them_in_order() {
    let to = vec!["a@b.c".to_owned()];
    let email = CreateEmailBaseOptions::new("f@x.dev", to, "s").with_attachment(
        Attachment::from_path("https://example.com/f.pdf")
            .with_filename("f.pdf")
            .with_content_type("application/pdf"),
    );
    assert_eq!(
        email.to_json(),
        "{\"from\":\"f@x.dev\",\"to\":[\"a@b.c\"],\"subject\":\"s\",\
         \"attachments\":[{\"path\":\"https://example.com/f.pdf\",\
         \"filename\":\"f.pdf\",\"contentType\":\"application/pdf\"}]}"
    );
}

#[test]
fn all() {
    // The send flow on the canonical example inputs: the built request
    // carries the verb, the resolved collection URL and the full payload.
    let from = "Acme <onboarding@resend.dev>";
    let to = vec!["delivered@resend.dev".to_owned()];
    let subject = "Hello World!";

    let resend = client();

    let email = CreateEmailBaseOptions::new(from, to, subject)
        .with_text("Hello World!")
        .with_attachment(Attachment::from_content("Hello World as file.".as_bytes().to_vec()))
        .with_tag(Tag::new("category", "confirm_email"));

    let req = resend.emails.send_request(&email).unwrap();
    assert_eq!(req.method, Method::Post);
    assert_eq!(req.url, "https://api.resend.com/emails");
    let body = String::from_utf8(req.body.unwrap()).unwrap();
    assert!(body.starts_with("{\"from\":\"Acme <onboarding@resend.dev>\""));
    assert!(body.contains("\"to\":[\"delivered@resend.dev\"]"));
    assert!(body.contains("\"subject\":\"Hello World!\""));
    assert!(body.contains("\"text\":\"Hello World!\""));
    assert!(body.contains("\"tags\":[{\"name\":\"category\",\"value\":\"confirm_email\"}]"));
    assert_eq!(req.headers[2], ("Content-Type".to_owned(), "application/json".to_owned()));

    let get = resend.emails.get_request("49a3999c-0ce1-4ea6-ab68-afcd6dc2e794").unwrap();
    assert_eq!(get.method, Method::Get);
    assert_eq!(get.url, "https://api.resend.com/emails/49a3999c-0ce1-4ea6-ab68-afcd6dc2e794");
    assert!(get.body.is_none());
}

#[test]
fn contact_requests_route_to_the_audience_collection() {
    let resend = client();
    let aid = "78261eea-8f8b-4381-83c6-79fa7120f1cf";

    let add = resend
        .contacts
        .add_request(aid, &CreateContactRequest::new("a@b.c"))
        .unwrap();
    assert_eq!(add.method, Method::Post);
    assert_eq!(
        add.url,
        "https://api.resend.com/audiences/78261eea-8f8b-4381-83c6-79fa7120f1cf/contacts"
    );
    assert_eq!(add.body.unwrap(), b"{\"email\":\"a@b.c\"}".to_vec());

    let get = resend.contacts.retrieve_request("cid", aid).unwrap();
    assert_eq!(get.method, Method::Get);
    assert_eq!(
        get.url,
        "https://api.resend.com/audiences/78261eea-8f8b-4381-83c6-79fa7120f1cf/contacts/cid"
    );

    let upd = resend
        .contacts
        .update_request(
            "cid",
            aid,
            &UpdateContactRequest {
                email: None,
                first_name: None,
                last_name: None,
                unsubscribed: Some(true),
            },
        )
        .unwrap();
    assert_eq!(upd.method, Method::Patch);
    assert_eq!(upd.body.unwrap(), b"{\"unsubscribed\":true}".to_vec());

    let del = resend.contacts.delete_request(aid, "a@b.c").unwrap();
    assert_eq!(del.method, Method::Delete);
    assert_eq!(
        del.url,
        "https://api.resend.com/audiences/78261eea-8f8b-4381-83c6-79fa7120f1cf/contacts/a@b.c"
    );

    let list = resend.contacts.list_request(aid).unwrap();
    assert_eq!(list.method, Method::Get);
    assert_eq!(
        list.url,
        "https://api.resend.com/audiences/78261eea-8f8b-4381-83c6-79fa7120f1cf/contacts"
    );
}

//! Operations on `/emails` endpoints: the payload types, their builders,
//! and the mapping from each typed call to the request the dispatcher
//! sends.

use std::sync::Arc;

use vstd::prelude::*;
use vstd::utf8::encode_utf8;

use crate::config::{built_json_request, built_request, joined_url, request_view, Config};
use crate::jsonfmt::{
    comma_sep, json_string, json_string_array, json_u8_array, lemma_concat_assoc,
    lemma_concat_empty, push_char, write_json_string, write_json_string_array,
    write_json_u8_array,
};
use crate::request::{Method, Request};

verus! {

/// Facade for `/emails` endpoints, bound to the shared dispatcher of its
/// client handle.
#[derive(Clone)]
pub struct EmailsSvc(pub Arc<Config>);

/// The compact string type identifiers are held in, opaque to the verified
/// logic; [`eco_str`] names the characters it holds.
#[verifier::external_type_specification]
#[verifier::external_body]
pub struct ExEcoString(ecow::EcoString);

/// The characters held by a compact string.
pub uninterp spec fn eco_str(s: ecow::EcoString) -> Seq<char>;

/// Relies on `ecow::EcoString::clone`: a clone holds the same characters.
pub assume_specification[ <ecow::EcoString as Clone>::clone ](
    s: &ecow::EcoString,
) -> (r: ecow::EcoString)
    ensures
        eco_str(r) == eco_str(*s),
;

/// Relies on `ecow::EcoString::from(&str)`: builds a compact copy of
/// exactly the given characters.
#[verifier::external_body]
fn eco_from(s: &str) -> (r: ecow::EcoString)
    ensures
        eco_str(r) == s@,
{
    ecow::EcoString::from(s)
}

/// Relies on `ecow::EcoString::as_str`: exposes exactly the held
/// characters.
#[verifier::external_body]
fn eco_as_str(s: &ecow::EcoString) -> (r: &str)
    ensures
        r@ == eco_str(*s),
{
    s.as_str()
}

/// Unique identifier of a sent or received email.
#[derive(Debug, Clone)]
pub struct EmailId(pub ecow::EcoString);

impl EmailId {
    /// Creates an identifier from its textual form.
    #[must_use]
    pub fn new(id: &str) -> (r: EmailId)
        ensures
            eco_str(r.0) == id@,
    {
        EmailId(eco_from(id))
    }

    /// The textual form of the identifier.
    #[must_use]
    pub fn as_str(&self) -> (r: &str)
        ensures
            r@ == eco_str(self.0),
    {
        eco_as_str(&self.0)
    }
}

/// Custom email headers carried in attachment order with unrepeated names.
pub open spec fn unique_names(h: Seq<(String, String)>) -> bool {
    forall|i: int, j: int| 0 <= i < j < h.len() ==> h[i].0@ != h[j].0@
}

/// The name-to-value map described by a header sequence, later entries
/// winning.
pub open spec fn headers_model(h: Seq<(String, String)>) -> Map<Seq<char>, Seq<char>>
    decreases h.len(),
{
    if h.len() == 0 {
        Map::empty()
    } else {
        headers_model(h.drop_last()).insert(h.last().0@, h.last().1@)
    }
}

/// All requisite components and associated data to send an email.
#[must_use]
#[derive(Debug, Clone)]
pub struct CreateEmailBaseOptions {
    /// Sender email address, optionally with a friendly name
    /// (`Your Name <sender@domain.com>`).
    pub from: String,
    /// Recipient email addresses.
    pub to: Vec<String>,
    /// Email subject.
    pub subject: String,
    /// The HTML version of the message.
    pub html: Option<String>,
    /// The plain text version of the message.
    pub text: Option<String>,
    /// Bcc recipient email addresses.
    pub bcc: Option<Vec<String>>,
    /// Cc recipient email addresses.
    pub cc: Option<Vec<String>>,
    /// Reply-to email addresses.
    pub reply_to: Option<Vec<String>>,
    /// Custom headers, in attachment order, names unrepeated.
    pub headers: Vec<(String, String)>,
    /// Attached files.
    pub attachments: Option<Vec<Attachment>>,
    /// Email tags.
    pub tags: Option<Vec<Tag>>,
}

impl CreateEmailBaseOptions {
    /// Creates the options for sending one email: sender, recipients and
    /// subject, with everything optional absent.
    pub fn new(from: &str, to: Vec<String>, subject: &str) -> (r: CreateEmailBaseOptions)
        ensures
            r.from@ == from@,
            r.to == to,
            r.subject@ == subject@,
            r.html is None,
            r.text is None,
            r.bcc is None,
            r.cc is None,
            r.reply_to is None,
            r.headers@ == Seq::<(String, String)>::empty(),
            r.attachments is None,
            r.tags is None,
    {
        CreateEmailBaseOptions {
            from: from.to_owned(),
            to,
            subject: subject.to_owned(),
            html: None,
            text: None,
            bcc: None,
            cc: None,
            reply_to: None,
            headers: Vec::new(),
            attachments: None,
            tags: None,
        }
    }

    /// Adds or overwrites the HTML version of the message.
    pub fn with_html(self, html: &str) -> (r: Self)
        ensures
            r.html matches Some(h) && h@ == html@,
            r == (Self { html: r.html, ..self }),
    {
        Self { html: Some(html.to_owned()), ..self }
    }

    /// Adds or overwrites the plain text version of the message.
    pub fn with_text(self, text: &str) -> (r: Self)
        ensures
            r.text matches Some(t) && t@ == text@,
            r == (Self { text: r.text, ..self }),
    {
        Self { text: Some(text.to_owned()), ..self }
    }

    /// Attaches another `bcc` recipient address.
    pub fn with_bcc(self, address: &str) -> (r: Self)
        ensures
            r.bcc matches Some(b) && b.deep_view() == (match self.bcc {
                Some(ob) => ob.deep_view().push(address@),
                None => seq![address@],
            }),
            r == (Self { bcc: r.bcc, ..self }),
    {
        let mut bcc = match self.bcc {
            Some(b) => b,
            None => Vec::new(),
        };
        let ghost old_bcc = bcc.deep_view();
        bcc.push(address.to_owned());
        proof {
            assert(bcc.deep_view() =~= old_bcc.push(address@));
            if self.bcc is None {
                assert(bcc.deep_view() =~= seq![address@]);
            }
        }
        Self { bcc: Some(bcc), ..self }
    }

    /// Attaches another `cc` recipient address.
    pub fn with_cc(self, address: &str) -> (r: Self)
        ensures
            r.cc matches Some(c) && c.deep_view() == (match self.cc {
                Some(oc) => oc.deep_view().push(address@),
                None => seq![address@],
            }),
            r == (Self { cc: r.cc, ..self }),
    {
        let mut cc = match self.cc {
            Some(c) => c,
            None => Vec::new(),
        };
        let ghost old_cc = cc.deep_view();
        cc.push(address.to_owned());
        proof {
            assert(cc.deep_view() =~= old_cc.push(address@));
            if self.cc is None {
                assert(cc.deep_view() =~= seq![address@]);
            }
        }
        Self { cc: Some(cc), ..self }
    }

    /// Adds another `reply_to` address.
    pub fn with_reply(self, to: &str) -> (r: Self)
        ensures
            r.reply_to matches Some(t) && t.deep_view() == (match self.reply_to {
                Some(ot) => ot.deep_view().push(to@),
                None => seq![to@],
            }),
            r == (Self { reply_to: r.reply_to, ..self }),
    {
        let mut reply_to = match self.reply_to {
            Some(t) => t,
            None => Vec::new(),
        };
        let ghost old_reply = reply_to.deep_view();
        reply_to.push(to.to_owned());
        proof {
            assert(reply_to.deep_view() =~= old_reply.push(to@));
            if self.reply_to is None {
                assert(reply_to.deep_view() =~= seq![to@]);
            }
        }
        Self { reply_to: Some(reply_to), ..self }
    }

    /// Adds or overwrites a custom header: the name-to-value map gains the
    /// pair, the last write to a name winning, and names stay unrepeated.
    pub fn with_header(self, name: &str, value: &str) -> (r: Self)
        requires
            unique_names(self.headers@),
        ensures
            headers_model(r.headers@) == headers_model(self.headers@).insert(name@, value@),
            unique_names(r.headers@),
            r == (Self { headers: r.headers, ..self }),
    {
        let mut headers = self.headers;
        let ghost orig = headers@;
        let name_owned = name.to_owned();
        let n = headers.len();
        let mut i: usize = 0;
        let mut found: Option<usize> = None;
        while i < n
            invariant
                n == headers@.len(),
                headers@ == orig,
                name_owned@ == name@,
                i <= n,
                found is None ==> forall|j: int| 0 <= j < i ==> headers@[j].0@ != name@,
                found matches Some(k) ==> k < i && headers@[k as int].0@ == name@,
            decreases n - i + (if found is None { 1int } else { 0int }),
        {
            if found.is_none() && headers[i].0 == name_owned {
                found = Some(i);
            }
            i += 1;
        }
        match found {
            Some(k) => {
                let _ = headers.remove(k);
                proof {
                    lemma_model_remove_insert(orig, k as int, name@, value@);
                    assert(unique_names(headers@)) by {
                        assert(forall|a: int, b: int|
                            0 <= a < b < headers@.len() ==> headers@[a].0@ != headers@[b].0@);
                    }
                }
            },
            None => {
            },
        }
        let ghost trimmed = headers@;
        headers.push((name.to_owned(), value.to_owned()));
        proof {
            assert(headers@.drop_last() =~= trimmed);
            assert(unique_names(headers@)) by {
                if found is None {
                    assert(forall|j: int| 0 <= j < trimmed.len() ==> trimmed[j].0@ != name@);
                } else {
                    let k = found->0 as int;
                    assert forall|j: int| 0 <= j < trimmed.len() implies trimmed[j].0@
                        != name@ by {
                        if j < k {
                            assert(trimmed[j] == orig[j]);
                            assert(orig[j].0@ != orig[k].0@);
                        } else {
                            assert(trimmed[j] == orig[j + 1]);
                            assert(orig[k].0@ != orig[j + 1].0@);
                        }
                    }
                }
            }
        }
        Self { headers, ..self }
    }

    /// Adds another attachment.
    pub fn with_attachment(self, file: Attachment) -> (r: Self)
        ensures
            r.attachments matches Some(a) && a@ == (match self.attachments {
                Some(oa) => oa@.push(file),
                None => seq![file],
            }),
            r == (Self { attachments: r.attachments, ..self }),
    {
        let mut attachments = match self.attachments {
            Some(a) => a,
            None => Vec::new(),
        };
        attachments.push(file);
        proof {
            if self.attachments is None {
                assert(attachments@ =~= seq![file]);
            }
        }
        Self { attachments: Some(attachments), ..self }
    }

    /// Adds another email tag.
    pub fn with_tag(self, tag: Tag) -> (r: Self)
        ensures
            r.tags matches Some(t) && t@ == (match self.tags {
                Some(ot) => ot@.push(tag),
                None => seq![tag],
            }),
            r == (Self { tags: r.tags, ..self }),
    {
        let mut tags = match self.tags {
            Some(t) => t,
            None => Vec::new(),
        };
        tags.push(tag);
        proof {
            if self.tags is None {
                assert(tags@ =~= seq![tag]);
            }
        }
        Self { tags: Some(tags), ..self }
    }
}

/// Removing the (unique) entry that carries a name and then inserting that
/// name afresh describes the same map as inserting over the original
/// sequence: the removed entry was shadowed by the insert anyway.
proof fn lemma_model_remove_insert(h: Seq<(String, String)>, k: int, name: Seq<char>, value: Seq<char>)
    requires
        unique_names(h),
        0 <= k < h.len(),
        h[k].0@ == name,
    ensures
        headers_model(h.remove(k)).insert(name, value) == headers_model(h).insert(name, value),
    decreases h.len(),
{
    if k == h.len() - 1 {
        assert(h.remove(k) =~= h.drop_last());
        assert(headers_model(h) == headers_model(h.drop_last()).insert(name, h.last().1@));
        assert(headers_model(h.drop_last()).insert(name, h.last().1@).insert(name, value)
            =~= headers_model(h.drop_last()).insert(name, value));
    } else {
        let hd = h.drop_last();
        assert(h.remove(k).drop_last() =~= hd.remove(k));
        assert(h.remove(k).last() == h.last());
        assert(0 <= k < hd.len() && hd[k] == h[k]);
        assert(unique_names(hd));
        lemma_model_remove_insert(hd, k, name, value);
        let last_name = h.last().0@;
        let last_value = h.last().1@;
        assert(last_name != name);
        assert(headers_model(h.remove(k)) == headers_model(hd.remove(k)).insert(
            last_name,
            last_value,
        ));
        assert(headers_model(hd.remove(k)).insert(last_name, last_value).insert(name, value)
            =~= headers_model(hd.remove(k)).insert(name, value).insert(last_name, last_value));
        assert(headers_model(hd).insert(name, value).insert(last_name, last_value)
            =~= headers_model(hd).insert(last_name, last_value).insert(name, value));
    }
}

/// The decoded response to sending an email.
#[derive(Debug, Clone)]
pub struct CreateEmailResponse {
    /// The ID of the sent email.
    pub id: EmailId,
}

/// The decoded response to sending a batch of emails.
#[derive(Debug, Clone)]
pub struct SendEmailBatchResponse {
    /// The IDs of the sent emails.
    pub data: Vec<CreateEmailResponse>,
}

/// Name and value of an attached email tag.
#[must_use]
#[derive(Debug, Clone)]
pub struct Tag {
    /// The name of the email tag: ASCII letters, numbers, underscores or
    /// dashes, at most 256 characters.
    pub name: String,
    /// The value of the email tag, under the same constraints as the name.
    pub value: String,
}

impl Tag {
    /// Creates a new email tag from its name and value.
    pub fn new(name: &str, value: &str) -> (r: Tag)
        ensures
            r.name@ == name@,
            r.value@ == value@,
    {
        Tag { name: name.to_owned(), value: value.to_owned() }
    }
}

/// Filename and content of an email attachment.
#[must_use]
#[derive(Debug, Clone)]
pub struct Attachment {
    /// Content or remote path of the attached file.
    pub content_or_path: ContentOrPath,
    /// Name of the attached file.
    pub filename: Option<String>,
    /// Content type of the attachment; derived from the filename when
    /// absent.
    pub content_type: Option<String>,
}

/// Content or path of an attachment.
#[must_use]
#[derive(Debug, Clone)]
pub enum ContentOrPath {
    /// The bytes of the attached file.
    Content(Vec<u8>),
    /// The remote path where the attached file is hosted.
    Path(String),
}

impl Attachment {
    /// Creates an attachment from the bytes of the file.
    pub fn from_content(content: Vec<u8>) -> (r: Attachment)
        ensures
            r.content_or_path == ContentOrPath::Content(content),
            r.filename is None,
            r.content_type is None,
    {
        Attachment { content_or_path: ContentOrPath::Content(content), filename: None, content_type: None }
    }

    /// Creates an attachment from the remote path where the file is hosted.
    pub fn from_path(path: &str) -> (r: Attachment)
        ensures
            r.content_or_path matches ContentOrPath::Path(p) && p@ == path@,
            r.filename is None,
            r.content_type is None,
    {
        Attachment {
            content_or_path: ContentOrPath::Path(path.to_owned()),
            filename: None,
            content_type: None,
        }
    }

    /// Adds a filename to the attached file.
    pub fn with_filename(self, filename: &str) -> (r: Self)
        ensures
            r.filename matches Some(f) && f@ == filename@,
            r.content_or_path == self.content_or_path,
            r.content_type == self.content_type,
    {
        Self { filename: Some(filename.to_owned()), ..self }
    }

    /// Adds a content type to the attached file.
    pub fn with_content_type(self, content_type: &str) -> (r: Self)
        ensures
            r.content_type matches Some(c) && c@ == content_type@,
            r.content_or_path == self.content_or_path,
            r.filename == self.filename,
    {
        Self { content_type: Some(content_type.to_owned()), ..self }
    }
}

/// The JSON text of one email tag.
pub open spec fn json_of_tag(t: Tag) -> Seq<char> {
    "{\"name\":"@ + json_string(t.name@) + ",\"value\":"@ + json_string(t.value@) + "}"@
}

/// The JSON text of one attachment: the content bytes or the remote path,
/// then each present optional field.
pub open spec fn json_of_attachment(a: Attachment) -> Seq<char> {
    "{"@ + (match a.content_or_path {
        ContentOrPath::Content(c) => "\"content\":"@ + json_u8_array(c@),
        ContentOrPath::Path(p) => "\"path\":"@ + json_string(p@),
    }) + (match a.filename {
        Some(f) => ",\"filename\":"@ + json_string(f@),
        None => Seq::<char>::empty(),
    }) + (match a.content_type {
        Some(c) => ",\"contentType\":"@ + json_string(c@),
        None => Seq::<char>::empty(),
    }) + "}"@
}

/// The JSON text of one custom header entry.
pub open spec fn json_of_header_pair(p: (String, String)) -> Seq<char> {
    json_string(p.0@) + ":"@ + json_string(p.1@)
}

/// The JSON object of the custom headers, in attachment order.
pub open spec fn json_of_headers(h: Seq<(String, String)>) -> Seq<char> {
    seq!['{'] + comma_sep(h.map_values(|p: (String, String)| json_of_header_pair(p))) + seq!['}']
}

/// The JSON array of the email tags.
pub open spec fn json_of_tags(ts: Seq<Tag>) -> Seq<char> {
    seq!['['] + comma_sep(ts.map_values(|t: Tag| json_of_tag(t))) + seq![']']
}

/// The JSON array of the attachments.
pub open spec fn json_of_attachments(aa: Seq<Attachment>) -> Seq<char> {
    seq!['['] + comma_sep(aa.map_values(|a: Attachment| json_of_attachment(a))) + seq![']']
}

/// The JSON text of a whole send-email payload: sender, recipients and
/// subject, then each present optional part, in declared order; the custom
/// headers are omitted when none were attached.
pub open spec fn json_of_create_email(o: CreateEmailBaseOptions) -> Seq<char> {
    "{\"from\":"@ + json_string(o.from@) + ",\"to\":"@ + json_string_array(o.to.deep_view())
        + ",\"subject\":"@ + json_string(o.subject@) + (match o.html {
        Some(h) => ",\"html\":"@ + json_string(h@),
        None => Seq::<char>::empty(),
    }) + (match o.text {
        Some(t) => ",\"text\":"@ + json_string(t@),
        None => Seq::<char>::empty(),
    }) + (match o.bcc {
        Some(b) => ",\"bcc\":"@ + json_string_array(b.deep_view()),
        None => Seq::<char>::empty(),
    }) + (match o.cc {
        Some(c) => ",\"cc\":"@ + json_string_array(c.deep_view()),
        None => Seq::<char>::empty(),
    }) + (match o.reply_to {
        Some(t) => ",\"reply_to\":"@ + json_string_array(t.deep_view()),
        None => Seq::<char>::empty(),
    }) + (if o.headers@.len() == 0 {
        Seq::<char>::empty()
    } else {
        ",\"headers\":"@ + json_of_headers(o.headers@)
    }) + (match o.attachments {
        Some(a) => ",\"attachments\":"@ + json_of_attachments(a@),
        None => Seq::<char>::empty(),
    }) + (match o.tags {
        Some(t) => ",\"tags\":"@ + json_of_tags(t@),
        None => Seq::<char>::empty(),
    }) + "}"@
}

/// Appends the JSON text of one tag.
fn write_tag(out: &mut String, t: &Tag)
    ensures
        final(out)@ == old(out)@ + json_of_tag(*t),
{
    out.append("{\"name\":");
    write_json_string(out, t.name.as_str());
    out.append(",\"value\":");
    write_json_string(out, t.value.as_str());
    out.append("}");
    proof {
        assert(out@ =~= old(out)@ + json_of_tag(*t));
    }
}

/// Appends the JSON text of one attachment.
fn write_attachment(out: &mut String, a: &Attachment)
    ensures
        final(out)@ == old(out)@ + json_of_attachment(*a),
{
    out.append("{");
    match &a.content_or_path {
        ContentOrPath::Content(c) => {
            out.append("\"content\":");
            write_json_u8_array(out, c);
        },
        ContentOrPath::Path(p) => {
            out.append("\"path\":");
            write_json_string(out, p.as_str());
        },
    }
    let ghost p1 = out@;
    match &a.filename {
        Some(f) => {
            out.append(",\"filename\":");
            write_json_string(out, f.as_str());
        },
        None => {},
    }
    proof {
        assert(out@ =~= p1 + (match a.filename {
            Some(f) => ",\"filename\":"@ + json_string(f@),
            None => Seq::<char>::empty(),
        }));
    }
    let ghost p2 = out@;
    match &a.content_type {
        Some(c) => {
            out.append(",\"contentType\":");
            write_json_string(out, c.as_str());
        },
        None => {},
    }
    proof {
        assert(out@ =~= p2 + (match a.content_type {
            Some(c) => ",\"contentType\":"@ + json_string(c@),
            None => Seq::<char>::empty(),
        }));
    }
    out.append("}");
    proof {
        assert(out@ =~= old(out)@ + json_of_attachment(*a));
    }
}

/// Appends the JSON array of the email tags.
fn write_tags(out: &mut String, ts: &Vec<Tag>)
    ensures
        final(out)@ == old(out)@ + json_of_tags(ts@),
{
    let ghost base = out@;
    let ghost items = ts@.map_values(|t: Tag| json_of_tag(t));
    push_char(out, '[');
    let n = ts.len();
    let mut i: usize = 0;
    while i < n
        invariant
            n == ts@.len(),
            i <= n,
            items == ts@.map_values(|t: Tag| json_of_tag(t)),
            items.len() == n,
            out@ == base + seq!['['] + comma_sep(items.take(i as int)),
        decreases n - i,
    {
        if i > 0 {
            push_char(out, ',');
        }
        write_tag(out, &ts[i]);
        proof {
            crate::jsonfmt::lemma_comma_sep_step(items, i as int);
            assert(items[i as int] == json_of_tag(ts@[i as int]));
            assert(out@ =~= base + seq!['['] + comma_sep(items.take(i as int + 1)));
        }
        i += 1;
    }
    push_char(out, ']');
    proof {
        assert(items.take(n as int) =~= items);
        assert(out@ =~= base + json_of_tags(ts@));
    }
}

/// Appends the JSON array of the attachments.
fn write_attachments(out: &mut String, aa: &Vec<Attachment>)
    ensures
        final(out)@ == old(out)@ + json_of_attachments(aa@),
{
    let ghost base = out@;
    let ghost items = aa@.map_values(|a: Attachment| json_of_attachment(a));
    push_char(out, '[');
    let n = aa.len();
    let mut i: usize = 0;
    while i < n
        invariant
            n == aa@.len(),
            i <= n,
            items == aa@.map_values(|a: Attachment| json_of_attachment(a)),
            items.len() == n,
            out@ == base + seq!['['] + comma_sep(items.take(i as int)),
        decreases n - i,
    {
        if i > 0 {
            push_char(out, ',');
        }
        write_attachment(out, &aa[i]);
        proof {
            crate::jsonfmt::lemma_comma_sep_step(items, i as int);
            assert(items[i as int] == json_of_attachment(aa@[i as int]));
            assert(out@ =~= base + seq!['['] + comma_sep(items.take(i as int + 1)));
        }
        i += 1;
    }
    push_char(out, ']');
    proof {
        assert(items.take(n as int) =~= items);
        assert(out@ =~= base + json_of_attachments(aa@));
    }
}

/// Appends the JSON object of the custom headers.
fn write_headers(out: &mut String, h: &Vec<(String, String)>)
    ensures
        final(out)@ == old(out)@ + json_of_headers(h@),
{
    let ghost base = out@;
    let ghost items = h@.map_values(|p: (String, String)| json_of_header_pair(p));
    push_char(out, '{');
    let n = h.len();
    let mut i: usize = 0;
    while i < n
        invariant
            n == h@.len(),
            i <= n,
            items == h@.map_values(|p: (String, String)| json_of_header_pair(p)),
            items.len() == n,
            out@ == base + seq!['{'] + comma_sep(items.take(i as int)),
        decreases n - i,
    {
        if i > 0 {
            push_char(out, ',');
        }
        write_json_string(out, h[i].0.as_str());
        out.append(":");
        write_json_string(out, h[i].1.as_str());
        proof {
            crate::jsonfmt::lemma_comma_sep_step(items, i as int);
            assert(items[i as int] == json_of_header_pair(h@[i as int]));
            assert(out@ =~= base + seq!['{'] + comma_sep(items.take(i as int + 1)));
        }
        i += 1;
    }
    push_char(out, '}');
    proof {
        assert(items.take(n as int) =~= items);
        assert(out@ =~= base + json_of_headers(h@));
    }
}

impl CreateEmailBaseOptions {
    /// Renders the payload as the JSON text the service expects.
    #[verifier::rlimit(100)]
    pub fn to_json(&self) -> (r: String)
        ensures
            r@ == json_of_create_email(*self),
    {
        let mut out = String::from_str("{\"from\":");
        write_json_string(&mut out, self.from.as_str());
        out.append(",\"to\":");
        write_json_string_array(&mut out, &self.to);
        out.append(",\"subject\":");
        write_json_string(&mut out, self.subject.as_str());
        let ghost p1 = out@;
        match &self.html {
            Some(h) => {
                out.append(",\"html\":");
                write_json_string(&mut out, h.as_str());
                proof {
                    lemma_concat_assoc(p1, ",\"html\":"@, json_string(h@));
                }
            },
            None => {
                proof {
                    lemma_concat_empty(p1);
                }
            },
        }
        proof {
            assert(out@ == p1 + (match self.html {
                Some(h) => ",\"html\":"@ + json_string(h@),
                None => Seq::<char>::empty(),
            }));
        }
        let ghost p2 = out@;
        match &self.text {
            Some(t) => {
                out.append(",\"text\":");
                write_json_string(&mut out, t.as_str());
                proof {
                    lemma_concat_assoc(p2, ",\"text\":"@, json_string(t@));
                }
            },
            None => {
                proof {
                    lemma_concat_empty(p2);
                }
            },
        }
        proof {
            assert(out@ == p2 + (match self.text {
                Some(t) => ",\"text\":"@ + json_string(t@),
                None => Seq::<char>::empty(),
            }));
        }
        let ghost p3 = out@;
        match &self.bcc {
            Some(b) => {
                out.append(",\"bcc\":");
                write_json_string_array(&mut out, b);
                proof {
                    lemma_concat_assoc(p3, ",\"bcc\":"@, json_string_array(b.deep_view()));
                }
            },
            None => {
                proof {
                    lemma_concat_empty(p3);
                }
            },
        }
        proof {
            assert(out@ == p3 + (match self.bcc {
                Some(b) => ",\"bcc\":"@ + json_string_array(b.deep_view()),
                None => Seq::<char>::empty(),
            }));
        }
        let ghost p4 = out@;
        match &self.cc {
            Some(c) => {
                out.append(",\"cc\":");
                write_json_string_array(&mut out, c);
                proof {
                    lemma_concat_assoc(p4, ",\"cc\":"@, json_string_array(c.deep_view()));
                }
            },
            None => {
                proof {
                    lemma_concat_empty(p4);
                }
            },
        }
        proof {
            assert(out@ == p4 + (match self.cc {
                Some(c) => ",\"cc\":"@ + json_string_array(c.deep_view()),
                None => Seq::<char>::empty(),
            }));
        }
        let ghost p5 = out@;
        match &self.reply_to {
            Some(t) => {
                out.append(",\"reply_to\":");
                write_json_string_array(&mut out, t);
                proof {
                    lemma_concat_assoc(p5, ",\"reply_to\":"@, json_string_array(t.deep_view()));
                }
            },
            None => {
                proof {
                    lemma_concat_empty(p5);
                }
            },
        }
        proof {
            assert(out@ == p5 + (match self.reply_to {
                Some(t) => ",\"reply_to\":"@ + json_string_array(t.deep_view()),
                None => Seq::<char>::empty(),
            }));
        }
        let ghost p6 = out@;
        if self.headers.len() > 0 {
            out.append(",\"headers\":");
            write_headers(&mut out, &self.headers);
            proof {
                lemma_concat_assoc(p6, ",\"headers\":"@, json_of_headers(self.headers@));
            }
        } else {
            proof {
                lemma_concat_empty(p6);
            }
        }
        proof {
            assert(out@ == p6 + (if self.headers@.len() == 0 {
                Seq::<char>::empty()
            } else {
                ",\"headers\":"@ + json_of_headers(self.headers@)
            }));
        }
        let ghost p7 = out@;
        match &self.attachments {
            Some(a) => {
                out.append(",\"attachments\":");
                write_attachments(&mut out, a);
                proof {
                    lemma_concat_assoc(p7, ",\"attachments\":"@, json_of_attachments(a@));
                }
            },
            None => {
                proof {
                    lemma_concat_empty(p7);
                }
            },
        }
        proof {
            assert(out@ == p7 + (match self.attachments {
                Some(a) => ",\"attachments\":"@ + json_of_attachments(a@),
                None => Seq::<char>::empty(),
            }));
        }
        let ghost p8 = out@;
        match &self.tags {
            Some(t) => {
                out.append(",\"tags\":");
                write_tags(&mut out, t);
                proof {
                    lemma_concat_assoc(p8, ",\"tags\":"@, json_of_tags(t@));
                }
            },
            None => {
                proof {
                    lemma_concat_empty(p8);
                }
            },
        }
        proof {
            assert(out@ == p8 + (match self.tags {
                Some(t) => ",\"tags\":"@ + json_of_tags(t@),
                None => Seq::<char>::empty(),
            }));
        }
        out.append("}");
        proof {
            assert(out@ == json_of_create_email(*self));
        }
        out
    }
}

/// The resource path of the email collection.
pub open spec fn emails_path() -> Seq<char> {
    "/emails"@
}

/// The resource path of one email.
pub open spec fn email_path(email_id: Seq<char>) -> Seq<char> {
    "/emails/"@ + email_id
}

impl EmailsSvc {
    /// The request that sends an email: a POST to the email collection
    /// carrying the payload as JSON.  `None` exactly when the collection
    /// path does not resolve against the base URL.
    pub fn send_request(&self, email: &CreateEmailBaseOptions) -> (r: Option<Request>)
        ensures
            r is Some <==> joined_url((*self.0).base_url@, emails_path()) is Some,
            r matches Some(req) ==> request_view(req) == built_json_request(
                (*self.0).api_key@,
                (*self.0).user_agent@,
                (*self.0).base_url@,
                Method::Post,
                emails_path(),
                encode_utf8(json_of_create_email(*email)),
            ),
    {
        match self.0.try_build(Method::Post, "/emails") {
            Some(req) => {
                let json = email.to_json();
                let body = json.as_str().as_bytes_vec();
                let decorated = req.with_json_body(body);
                proof {
                    assert(request_view(decorated).2 =~= request_view(req).2.push(
                        ("Content-Type"@, "application/json"@),
                    ));
                    assert(request_view(decorated) == built_json_request(
                        (*self.0).api_key@,
                        (*self.0).user_agent@,
                        (*self.0).base_url@,
                        Method::Post,
                        emails_path(),
                        encode_utf8(json_of_create_email(*email)),
                    ));
                }
                Some(decorated)
            },
            None => None,
        }
    }

    /// The request that retrieves a single email: a GET of the email's
    /// path.  `None` exactly when the path does not resolve against the
    /// base URL.
    pub fn get_request(&self, email_id: &str) -> (r: Option<Request>)
        ensures
            r is Some <==> joined_url((*self.0).base_url@, email_path(email_id@)) is Some,
            r matches Some(req) ==> request_view(req) == built_request(
                (*self.0).api_key@,
                (*self.0).user_agent@,
                (*self.0).base_url@,
                Method::Get,
                email_path(email_id@),
            ),
    {
        let mut path = String::from_str("/emails/");
        path.append(email_id);
        proof {
            assert(path@ =~= email_path(email_id@));
        }
        self.0.try_build(Method::Get, path.as_str())
    }
}

/// A received email, as decoded by the facade.
#[must_use]
#[derive(Debug, Clone)]
pub struct Email {
    /// The ID of the email.
    pub id: EmailId,
    /// Sender email address.
    pub from: String,
    /// Recipient email addresses.
    pub to: Vec<String>,
    /// The subject line of the email.
    pub subject: String,
    /// The date and time the email was created, in ISO8601 form.
    pub created_at: String,
    /// The HTML body of the email.
    pub html: Option<String>,
    /// The plain text body of the email.
    pub text: String,
    /// The blind carbon copy recipients.
    pub bcc: Vec<String>,
    /// The carbon copy recipients.
    pub cc: Vec<String>,
    /// The addresses replies should be sent to.
    pub reply_to: Option<Vec<String>>,
    /// The status of the email.
    pub last_event: String,
}

} // verus!

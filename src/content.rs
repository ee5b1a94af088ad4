//! A content item: the resource this CMS serves, with its payload and its
//! capabilities.
use vstd::prelude::*;

use crate::endpoints::{all_ops, names_view};
use crate::errors::{BuildError, Error};
use crate::routing::{build_endpoint, EndpointDef, Repository};
use crate::schema::{
    fields_view, is_reserved, reserved_error, resource_fields, Field, FieldView, StructFields,
};
use crate::text::{same_text, snake_case};

verus! {

/// The id the store gives a content item it creates.
pub const ASSIGNED_ID: &'static str = "uuid-from-database";

/// Whether `c` is the sample item, under the id `id`.
pub open spec fn is_sample(c: Content, id: Seq<char>) -> bool {
    &&& c.id@ == id
    &&& c.created_at == 0
    &&& c.title@ == "Lorem Ipsum"@
    &&& c.body@ == "#header\nthis is some content\n- check this\n- out"@
    &&& c.summary matches Some(s) && s@ == "really interesting fact about something"@
}

/// Whether `c` carries the fields of `payload`.
pub open spec fn has_payload(c: Content, payload: ContentPayload) -> bool {
    &&& c.title == payload.title
    &&& c.body == payload.body
    &&& c.summary == payload.summary
}

/// The declared fields of a content item: its title, body and optional summary.
pub open spec fn content_fields() -> Seq<FieldView> {
    seq![("title"@, "String"@), ("body"@, "String"@), ("summary"@, "Option<String>"@)]
}

/// The id of the sample item.
pub const SAMPLE_ID: &'static str = "86e4fc36-7ce7-4d22-b5a0-5bd819804cce";

/// A content item.
pub struct Content {
    pub id: String,
    /// Seconds since the Unix epoch at which the item was created.
    pub created_at: u64,
    pub title: String,
    pub body: String,
    pub summary: Option<String>,
}

/// What a client sends to create or update a content item.
pub struct ContentPayload {
    pub title: String,
    pub body: String,
    pub summary: Option<String>,
}

/// Relies on `SystemTime::elapsed`, asked of the Unix epoch: the whole
/// seconds since then, when the clock is past it.
#[verifier::external_body]
fn seconds_since_epoch() -> (r: Option<u64>) {
    std::time::UNIX_EPOCH.elapsed().ok().map(|d| d.as_secs())
}

/// The current time in seconds since the Unix epoch, or zero where the clock
/// stands before it.
fn now() -> u64 {
    match seconds_since_epoch() {
        Some(s) => s,
        None => 0,
    }
}

/// A copy of an optional text.
fn copy_text(s: &Option<String>) -> (r: Option<String>)
    ensures
        r == *s,
{
    match s {
        Some(t) => Some(t.clone()),
        None => None,
    }
}

impl Content {
    /// A sample item, for trying the server out.
    pub fn new() -> (r: Content)
        ensures
            is_sample(r, SAMPLE_ID@),
    {
        Content {
            id: String::from_str(SAMPLE_ID),
            created_at: 0,
            title: String::from_str("Lorem Ipsum"),
            body: String::from_str("#header\nthis is some content\n- check this\n- out"),
            summary: Some(String::from_str("really interesting fact about something")),
        }
    }

    /// An item with every text empty and no summary.
    pub fn invalid() -> (r: Content)
        ensures
            r.id@ == Seq::<char>::empty(),
            r.created_at == 0,
            r.title@ == Seq::<char>::empty(),
            r.body@ == Seq::<char>::empty(),
            r.summary is None,
    {
        Content {
            id: String::new(),
            created_at: 0,
            title: String::new(),
            body: String::new(),
            summary: None,
        }
    }

    /// The item that a payload describes, under the given id and creation time.
    pub fn from_payload(id: String, created_at: u64, payload: &ContentPayload) -> (r: Content)
        ensures
            r.id == id,
            r.created_at == created_at,
            r.title == payload.title,
            r.body == payload.body,
            r.summary == payload.summary,
    {
        Content {
            id,
            created_at,
            title: payload.title.clone(),
            body: payload.body.clone(),
            summary: copy_text(&payload.summary),
        }
    }

    /// The declared fields of a content item, as the endpoint builder takes them.
    pub fn fields() -> (r: StructFields)
        ensures
            r matches StructFields::Named(fs) && fields_view(fs@) == content_fields(),
    {
        let mut fs: Vec<Field> = Vec::new();
        fs.push(Field::new("title", "String"));
        fs.push(Field::new("body", "String"));
        fs.push(Field::new("summary", "Option<String>"));
        assert(fields_view(fs@) =~= content_fields());
        StructFields::Named(fs)
    }

    /// The endpoint of content items, with every operation enabled.
    pub fn endpoint() -> (r: Result<EndpointDef, BuildError>)
        ensures
            r matches Ok(d) && d.wf() && d.endpoints@ == all_ops() && d.name@ == "Content"@
                && d.segment@ == snake_case("Content"@) && fields_view(d.schema.payload@)
                == content_fields() && fields_view(d.schema.fields@) == resource_fields(
                content_fields(),
            ),
    {
        let requested: Vec<String> = Vec::new();
        let fields = Content::fields();
        let r = build_endpoint("Content", &fields, &requested);
        proof {
            reveal_strlit("title");
            reveal_strlit("body");
            reveal_strlit("summary");
            reveal_strlit("id");
            reveal_strlit("created_at");
            if let StructFields::Named(fs) = fields {
                let domain = fields_view(fs@);
                assert forall|i: int| 0 <= i < domain.len() implies !is_reserved(
                    #[trigger] domain[i].0,
                ) by {
                    assert(domain[i] == fs@[i]@);
                    assert(domain[i].0.len() != 2 || domain[i].0[0] != 'i');
                    assert(domain[i].0.len() != 10);
                }
                assert(!reserved_error(fs@, r->Err_0));
            }
            assert(names_view(requested@) =~= Seq::<Seq<char>>::empty());
        }
        r
    }
}

impl Repository<Content, ContentPayload> for Content {
    fn create_one(payload: &ContentPayload) -> (r: Result<Content, Error>)
        ensures
            payload.body@ == "invalid"@ ==> r == Err::<Content, Error>(Error::Example),
            payload.body@ != "invalid"@ ==> (r matches Ok(c) && c.id@ == ASSIGNED_ID@ && has_payload(
                c,
                *payload,
            )),
    {
        if same_text(payload.body.as_str(), "invalid") {
            return Err(Error::Example);
        }
        Ok(Content::from_payload(String::from_str(ASSIGNED_ID), now(), payload))
    }

    fn read_one(id: &String) -> (r: Result<Option<Content>, Error>)
        ensures
            id@ == "invalid"@ ==> r == Err::<Option<Content>, Error>(Error::Example),
            id@ == "unknown"@ ==> r == Ok::<Option<Content>, Error>(None),
            id@ != "invalid"@ && id@ != "unknown"@ ==> (r matches Ok(Some(c)) && is_sample(c, id@)),
    {
        proof {
            reveal_strlit("invalid");
            reveal_strlit("unknown");
            assert("invalid"@[0] != "unknown"@[0]);
        }
        if same_text(id.as_str(), "invalid") {
            return Err(Error::Example);
        }
        if same_text(id.as_str(), "unknown") {
            return Ok(None);
        }
        let mut item = Content::new();
        item.id = id.clone();
        Ok(Some(item))
    }

    fn read_all() -> (r: Result<Vec<Content>, Error>)
        ensures
            r matches Ok(v) && v@.len() == 4 && forall|i: int|
                0 <= i < 4 ==> is_sample(#[trigger] v@[i], SAMPLE_ID@),
    {
        let v = vec![Content::new(), Content::new(), Content::new(), Content::new()];
        Ok(v)
    }

    fn update_one(id: &String, payload: &ContentPayload) -> (r: Result<Content, Error>)
        ensures
            r matches Ok(c) && c.id == *id && has_payload(c, *payload),
    {
        Ok(Content::from_payload(id.clone(), now(), payload))
    }

    fn delete_one(_id: &String) -> (r: Result<(), Error>)
        ensures
            r == Ok::<(), Error>(()),
    {
        Ok(())
    }
}

} // verus!

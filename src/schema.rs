//! Schema extraction: the fields of a resource, split into the ones the
//! server manages and the ones a client supplies.
use vstd::prelude::*;

use crate::errors::BuildError;
use crate::text::same_text;

verus! {

/// The name of the field that holds a resource's identifier.
pub const ID_FIELD: &'static str = "id";

/// The name of the field that holds a resource's creation time.
pub const CREATED_AT_FIELD: &'static str = "created_at";

/// The type of the identifier field.
pub const ID_TYPE: &'static str = "String";

/// The type of the creation-time field.
pub const CREATED_AT_TYPE: &'static str = "DateTime<Utc>";

/// A named field of a record: its name and the text of its type.
pub struct Field {
    pub name: String,
    pub ty: String,
}

/// A field as a pair of character sequences: name, then type.
pub type FieldView = (Seq<char>, Seq<char>);

impl View for Field {
    type V = FieldView;

    open spec fn view(&self) -> FieldView {
        (self.name@, self.ty@)
    }
}

impl Clone for Field {
    fn clone(&self) -> (r: Field)
        ensures
            r@ == self@,
    {
        Field { name: self.name.clone(), ty: self.ty.clone() }
    }
}

/// The fields of a record as declared: named, positional, or none.
pub enum StructFields {
    Named(Vec<Field>),
    Unnamed(Vec<String>),
    Unit,
}

/// The views of a list of fields.
pub open spec fn fields_view(fs: Seq<Field>) -> Seq<FieldView> {
    fs.map_values(|f: Field| f@)
}

/// The identifier field, as the server adds it.
pub open spec fn id_field() -> FieldView {
    (ID_FIELD@, ID_TYPE@)
}

/// The creation-time field, as the server adds it.
pub open spec fn created_at_field() -> FieldView {
    (CREATED_AT_FIELD@, CREATED_AT_TYPE@)
}

/// Whether a field name is one that the server manages.
pub open spec fn is_reserved(name: Seq<char>) -> bool {
    name == ID_FIELD@ || name == CREATED_AT_FIELD@
}

/// The fields of the resource: the two server-managed fields, then the declared ones.
pub open spec fn resource_fields(domain: Seq<FieldView>) -> Seq<FieldView> {
    seq![id_field(), created_at_field()] + domain
}

/// The fields of the request payload: the declared ones, in their order.
pub open spec fn payload_fields(domain: Seq<FieldView>) -> Seq<FieldView> {
    domain
}

/// The set of names among a list of fields.
pub open spec fn field_names(fs: Seq<FieldView>) -> Set<Seq<char>> {
    Set::new(|n: Seq<char>| exists|i: int| 0 <= i < fs.len() && fs[i].0 == n)
}

/// Whether a declared field at `i` is the first to use a reserved name.
pub open spec fn first_reserved(domain: Seq<FieldView>, i: int) -> bool {
    &&& 0 <= i < domain.len()
    &&& is_reserved(domain[i].0)
    &&& forall|j: int| 0 <= j < i ==> !is_reserved(#[trigger] domain[j].0)
}

/// Whether `e` names the first declared field that uses a reserved name.
pub open spec fn reserved_error(fs: Seq<Field>, e: BuildError) -> bool {
    exists|i: int|
        #[trigger] first_reserved(fields_view(fs), i) && e == BuildError::ReservedField(fs[i].name)
}

/// Whether `r` is what schema extraction gives for `shape`: for named fields
/// none of which is reserved, the resource and payload schemas; for named
/// fields with a reserved one, the first such name; otherwise, the rejection
/// of a record without named fields.
pub open spec fn schema_outcome(shape: StructFields, r: Result<ResourceSchema, BuildError>) -> bool {
    match shape {
        StructFields::Named(fs) => {
            let domain = fields_view(fs@);
            match r {
                Ok(s) => {
                    &&& forall|i: int| 0 <= i < domain.len() ==> !is_reserved(#[trigger] domain[i].0)
                    &&& fields_view(s.fields@) == resource_fields(domain)
                    &&& fields_view(s.payload@) == payload_fields(domain)
                },
                Err(e) => reserved_error(fs@, e),
            }
        },
        _ => r == Err::<ResourceSchema, BuildError>(BuildError::UnnamedFields),
    }
}

/// The schema of a resource and of the payload that creates or updates it.
pub struct ResourceSchema {
    /// Every field of the resource, server-managed ones first.
    pub fields: Vec<Field>,
    /// The fields a client supplies.
    pub payload: Vec<Field>,
}

impl Field {
    /// A field with the given name and type.
    pub fn new(name: &str, ty: &str) -> (r: Field)
        ensures
            r@ == (name@, ty@),
    {
        Field { name: String::from_str(name), ty: String::from_str(ty) }
    }
}

/// Splits the declared fields of a record into the resource schema (an
/// identifier and a creation time, then the declared fields) and the payload
/// schema (the declared fields alone). A record without named fields, or one
/// that declares a field under a server-managed name, is rejected.
pub fn derive_schema(shape: &StructFields) -> (r: Result<ResourceSchema, BuildError>)
    ensures
        schema_outcome(*shape, r),
{
    let fs = match shape {
        StructFields::Named(fs) => fs,
        _ => {
            return Err(BuildError::UnnamedFields);
        },
    };
    let ghost domain = fields_view(fs@);
    let mut fields: Vec<Field> = Vec::new();
    fields.push(Field::new(ID_FIELD, ID_TYPE));
    fields.push(Field::new(CREATED_AT_FIELD, CREATED_AT_TYPE));
    let mut payload: Vec<Field> = Vec::new();
    let mut i: usize = 0;
    while i < fs.len()
        invariant
            *shape == StructFields::Named(*fs),
            domain == fields_view(fs@),
            i <= fs@.len(),
            forall|j: int| 0 <= j < i ==> !is_reserved(#[trigger] domain[j].0),
            fields_view(fields@) == resource_fields(domain.subrange(0, i as int)),
            fields_view(payload@) == payload_fields(domain.subrange(0, i as int)),
        decreases fs@.len() - i,
    {
        let f = &fs[i];
        assert(f@ == domain[i as int]);
        if same_text(f.name.as_str(), ID_FIELD) || same_text(f.name.as_str(), CREATED_AT_FIELD) {
            let e = BuildError::ReservedField(f.name.clone());
            assert(first_reserved(domain, i as int) && e == BuildError::ReservedField(fs@[i as int].name));
            assert(reserved_error(fs@, e));
            return Err(e);
        }
        let ghost before = fields@;
        let ghost before_payload = payload@;
        let c1 = f.clone();
        let c2 = f.clone();
        fields.push(c1);
        payload.push(c2);
        assert(fields@ == before.push(c1));
        assert(fields_view(fields@) =~= fields_view(before).push(f@));
        assert(fields_view(payload@) =~= fields_view(before_payload).push(f@));
        assert(domain.subrange(0, i + 1) =~= domain.subrange(0, i as int).push(f@));
        assert(fields_view(fields@) =~= resource_fields(domain.subrange(0, i + 1)));
        assert(fields_view(payload@) =~= payload_fields(domain.subrange(0, i + 1)));
        i = i + 1;
    }
    assert(domain.subrange(0, fs@.len() as int) =~= domain);
    Ok(ResourceSchema { fields, payload })
}

/// The payload carries exactly the resource's fields but the identifier and
/// the creation time: no client-supplied field can set either of them.
pub proof fn lemma_payload_excludes_managed_fields(domain: Seq<FieldView>)
    requires
        forall|i: int| 0 <= i < domain.len() ==> !is_reserved(#[trigger] domain[i].0),
    ensures
        field_names(payload_fields(domain)) == field_names(resource_fields(domain)).remove(
            ID_FIELD@,
        ).remove(CREATED_AT_FIELD@),
        !field_names(payload_fields(domain)).contains(ID_FIELD@),
        !field_names(payload_fields(domain)).contains(CREATED_AT_FIELD@),
{
    let full = resource_fields(domain);
    assert forall|n: Seq<char>| #[trigger] field_names(domain).contains(n) implies !is_reserved(n) by {
        let i = choose|i: int| 0 <= i < domain.len() && domain[i].0 == n;
        assert(!is_reserved(domain[i].0));
    }
    assert forall|n: Seq<char>| #[trigger] field_names(domain).contains(n) implies field_names(full).contains(n) by {
        let i = choose|i: int| 0 <= i < domain.len() && domain[i].0 == n;
        assert(full[i + 2] == domain[i]);
    }
    assert forall|n: Seq<char>| #[trigger] field_names(full).contains(n) && !is_reserved(n)
        implies field_names(domain).contains(n) by {
        let i = choose|i: int| 0 <= i < full.len() && full[i].0 == n;
        if i >= 2 {
            assert(domain[i - 2] == full[i]);
        }
    }
    assert(field_names(payload_fields(domain)) =~= field_names(full).remove(ID_FIELD@).remove(
        CREATED_AT_FIELD@,
    ));
}

/// Whatever fields a record declares, the payload schema that extraction
/// gives holds exactly the names of the resource schema but `id` and
/// `created_at`.
pub proof fn lemma_schema_payload_fields(shape: StructFields, s: ResourceSchema)
    requires
        schema_outcome(shape, Ok(s)),
    ensures
        field_names(fields_view(s.payload@)) == field_names(fields_view(s.fields@)).remove(
            ID_FIELD@,
        ).remove(CREATED_AT_FIELD@),
{
    if let StructFields::Named(fs) = shape {
        lemma_payload_excludes_managed_fields(fields_view(fs@));
    }
}

} // verus!

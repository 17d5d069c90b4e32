//! The identifier of an entity: one field used as the key directly, or
//! several fields gathered into a key struct of their own.
use vstd::prelude::*;
use crate::ir::{GeormField, TypeRef};
use crate::text::views;

verus! {

/// The fields marked as identifier, in declaration order.
pub open spec fn id_fields(fs: Seq<GeormField>) -> Seq<GeormField>
    decreases fs.len(),
{
    if fs.len() == 0 {
        Seq::empty()
    } else if fs.last().id {
        id_fields(fs.drop_last()).push(fs.last())
    } else {
        id_fields(fs.drop_last())
    }
}

/// The fields not marked as identifier, in declaration order.
pub open spec fn non_id_fields(fs: Seq<GeormField>) -> Seq<GeormField>
    decreases fs.len(),
{
    if fs.len() == 0 {
        Seq::empty()
    } else if !fs.last().id {
        non_id_fields(fs.drop_last()).push(fs.last())
    } else {
        non_id_fields(fs.drop_last())
    }
}

/// The names of the fields.
pub open spec fn field_names(fs: Seq<GeormField>) -> Seq<Seq<char>> {
    Seq::new(fs.len(), |i: int| fs[i].ident@)
}

pub proof fn lemma_id_fields_take(fs: Seq<GeormField>, i: int)
    requires
        0 <= i < fs.len(),
    ensures
        id_fields(fs.take(i + 1)) == if fs[i].id {
            id_fields(fs.take(i)).push(fs[i])
        } else {
            id_fields(fs.take(i))
        },
        non_id_fields(fs.take(i + 1)) == if !fs[i].id {
            non_id_fields(fs.take(i)).push(fs[i])
        } else {
            non_id_fields(fs.take(i))
        },
{
    assert(fs.take(i + 1).drop_last() =~= fs.take(i));
}

pub proof fn lemma_id_fields_len(fs: Seq<GeormField>)
    ensures
        id_fields(fs).len() + non_id_fields(fs).len() == fs.len(),
    decreases fs.len(),
{
    if fs.len() > 0 {
        lemma_id_fields_len(fs.drop_last());
    }
}

/// One member of a composite key.
#[derive(Debug, Clone)]
pub struct IdField {
    pub name: String,
    pub ty: TypeRef,
}

/// Whether `k` is the key member made from field `f`.
pub open spec fn is_member_of(k: IdField, f: GeormField) -> bool {
    k.name@ == f.ident@ && k.ty@ == f.ty@
}

/// Whether `ks` are the key members made from `fs`, one for one, in order.
pub open spec fn are_members_of(ks: Seq<IdField>, fs: Seq<GeormField>) -> bool {
    ks.len() == fs.len() && forall|i: int| 0 <= i < ks.len() ==> is_member_of(#[trigger] ks[i], fs[i])
}

/// The shape of an entity's identifier.
#[derive(Debug, Clone)]
pub enum IdType {
    /// One identifier field, whose type is the key type.
    Simple { field_name: String, field_type: TypeRef },
    /// Several identifier fields, gathered in the key struct `field_type`.
    Composite { fields: Vec<IdField>, field_type: String },
}

/// The name of the key struct of a composite identifier: `<Entity>Id`.
pub open spec fn key_struct_name(entity: Seq<char>) -> Seq<char> {
    entity + "Id"@
}

impl IdType {
    /// The key columns, in declaration order.
    pub open spec fn key_names(&self) -> Seq<Seq<char>> {
        match self {
            IdType::Simple { field_name, .. } => seq![field_name@],
            IdType::Composite { fields, .. } => Seq::new(fields@.len(), |i: int| fields@[i].name@),
        }
    }

    /// Whether this is the identifier of an entity named `entity` with fields `fs`.
    pub open spec fn describes(&self, entity: Seq<char>, fs: Seq<GeormField>) -> bool {
        let ids = id_fields(fs);
        match self {
            IdType::Simple { field_name, field_type } => {
                &&& ids.len() == 1
                &&& field_name@ == ids[0].ident@
                &&& field_type@ == ids[0].ty@
            },
            IdType::Composite { fields, field_type } => {
                &&& ids.len() >= 2
                &&& are_members_of(fields@, ids)
                &&& field_type@ == key_struct_name(entity)
            },
        }
    }

    /// The key columns, in declaration order.
    pub fn names(&self) -> (r: Vec<String>)
        ensures
            views(r@) == self.key_names(),
    {
        match self {
            IdType::Simple { field_name, .. } => {
                let mut r: Vec<String> = Vec::new();
                r.push(field_name.clone());
                assert(views(r@) =~= self.key_names());
                r
            },
            IdType::Composite { fields, .. } => {
                let mut r: Vec<String> = Vec::new();
                let mut i: usize = 0;
                while i < fields.len()
                    invariant
                        i <= fields.len(),
                        r@.len() == i,
                        forall|j: int| 0 <= j < i ==> r@[j]@ == fields@[j].name@,
                    decreases fields.len() - i,
                {
                    r.push(fields[i].name.clone());
                    i = i + 1;
                }
                assert(views(r@) =~= self.key_names());
                r
            },
        }
    }

}

pub proof fn lemma_describes_names(id: IdType, entity: Seq<char>, fs: Seq<GeormField>)
    requires
        id.describes(entity, fs),
    ensures
        id.key_names() == field_names(id_fields(fs)),
{
    assert(id.key_names() =~= field_names(id_fields(fs)));
}

/// The key struct generated for a composite identifier. `derives` names the
/// traits it derives.
#[derive(Debug, Clone)]
pub struct KeyStruct {
    pub name: String,
    pub vis: String,
    pub fields: Vec<IdField>,
    pub derives: Vec<String>,
}

/// What a key struct derives: `PartialEq` and `Eq`. Derived on a struct,
/// these compare every member, so two keys are equal exactly when
/// `keys_equal` holds of their members' values.
pub open spec fn key_derives() -> Seq<Seq<char>> {
    seq!["PartialEq"@, "Eq"@]
}

/// Value equality of two keys of struct `k`, given the values of their
/// members by name: every member is equal.
pub open spec fn keys_equal<V>(k: KeyStruct, a: Map<Seq<char>, V>, b: Map<Seq<char>, V>) -> bool {
    forall|i: int| 0 <= i < k.fields@.len() ==> a[#[trigger] k.fields@[i].name@] == b[k.fields@[i].name@]
}

/// The text of an entity's key type: the identifier field's type for a
/// simple key, the key struct's name for a composite one.
pub open spec fn key_type_text(id: IdType) -> Seq<char> {
    match id {
        IdType::Simple { field_type, .. } => field_type.tokens@,
        IdType::Composite { field_type, .. } => field_type@,
    }
}

impl IdType {
    /// The key type: the identifier field's type for a simple key, the key
    /// struct for a composite one.
    pub fn key_type(&self) -> (r: TypeRef)
        ensures
            r.tokens@ == key_type_text(*self),
            self matches IdType::Simple { field_type, .. } ==> r@ == field_type@,
            self is Composite ==> r.path@.len() == 1 && r.path@[0]@ == key_type_text(*self),
    {
        match self {
            IdType::Simple { field_type, .. } => field_type.copy(),
            IdType::Composite { field_type, .. } => {
                let mut path: Vec<String> = Vec::new();
                path.push(field_type.clone());
                TypeRef { tokens: field_type.clone(), path }
            },
        }
    }
}

/// The key member made from a field: same name, same type.
fn field_to_code(field: &GeormField) -> (r: IdField)
    ensures
        is_member_of(r, *field),
{
    IdField { name: field.ident.clone(), ty: field.ty.copy() }
}

/// The key members made from the identifier fields of `fields`, in order.
fn collect_id_fields(fields: &Vec<GeormField>) -> (r: Vec<IdField>)
    ensures
        are_members_of(r@, id_fields(fields@)),
{
    let mut r: Vec<IdField> = Vec::new();
    let mut i: usize = 0;
    while i < fields.len()
        invariant
            i <= fields.len(),
            are_members_of(r@, id_fields(fields@.take(i as int))),
        decreases fields.len() - i,
    {
        proof {
            lemma_id_fields_take(fields@, i as int);
        }
        if fields[i].id {
            let member = field_to_code(&fields[i]);
            r.push(member);
        }
        i = i + 1;
    }
    assert(fields@.take(fields.len() as int) =~= fields@);
    r
}

/// The key struct `<Entity>Id` with one member for each identifier field.
fn generate_struct(struct_name: &str, vis: &str, fields: &Vec<GeormField>) -> (r: KeyStruct)
    ensures
        r.name@ == key_struct_name(struct_name@),
        r.vis@ == vis@,
        are_members_of(r.fields@, id_fields(fields@)),
        views(r.derives@) == key_derives(),
{
    let mut name = String::from_str(struct_name);
    name.append("Id");
    let mut derives: Vec<String> = Vec::new();
    derives.push(String::from_str("PartialEq"));
    derives.push(String::from_str("Eq"));
    assert(views(derives@) =~= key_derives());
    KeyStruct { name, vis: String::from_str(vis), fields: collect_id_fields(fields), derives }
}

/// Resolves the identifier of entity `struct_name`: simple when one field is
/// marked as identifier, composite (with its key struct) when several are.
pub fn create_primary_key(struct_name: &str, vis: &str, fields: &Vec<GeormField>) -> (r: (
    IdType,
    Option<KeyStruct>,
))
    requires
        id_fields(fields@).len() > 0,
    ensures
        r.0.describes(struct_name@, fields@),
        r.0.key_names() == field_names(id_fields(fields@)),
        (id_fields(fields@).len() == 1) <==> r.0 is Simple,
        r.0 is Simple <==> r.1 is None,
        r.1 matches Some(k) ==> {
            &&& k.name@ == key_struct_name(struct_name@)
            &&& k.vis@ == vis@
            &&& are_members_of(k.fields@, id_fields(fields@))
            &&& views(k.derives@) == key_derives()
        },
{
    let id_fields = collect_id_fields(fields);
    if id_fields.len() == 1 {
        let first = &id_fields[0];
        let r = (IdType::Simple { field_name: first.name.clone(), field_type: first.ty.copy() }, None);
        proof {
            lemma_describes_names(r.0, struct_name@, fields@);
        }
        r
    } else {
        let key = generate_struct(struct_name, vis, fields);
        let field_type = key.name.clone();
        let r = (IdType::Composite { fields: id_fields, field_type }, Some(key));
        proof {
            lemma_describes_names(r.0, struct_name@, fields@);
        }
        r
    }
}

} // verus!

//! One entity from declaration to generated operations: its fields are
//! checked, its identifier resolved, and every statement and accessor built.
use vstd::prelude::*;
use crate::defaultable::{
    DefaultableStruct, derive_defaultable_struct, has_defaultable, companion_name, is_companion_field,
    column_views, columns_of,
};
use crate::ir::{DeclarationError, GeormField, GeormFieldAttributes, GeormStructAttributes, TypeRef, is_option};
use crate::keys::{
    IdType, KeyStruct, create_primary_key, field_names, id_fields, non_id_fields, key_struct_name,
    are_members_of, key_derives, key_type_text,
};
use crate::query::{
    Query, keys_of, find_all_sql, find_sql, create_sql, update_sql, upsert_sql, delete_sql,
    generate_find_all_query, generate_find_query, generate_create_query, generate_update_query,
    generate_upsert_query, generate_delete_query,
};
use crate::text::views;
use crate::relationships::{Relationships, derive_relationships, models, all_accessors, composite_warning};

verus! {

/// A field as declared: name, visibility, type and markers, not yet checked.
#[derive(Debug, Clone)]
pub struct FieldDeclaration {
    pub ident: String,
    pub vis: String,
    pub ty: TypeRef,
    pub attrs: GeormFieldAttributes,
}

/// Whether a declaration is accepted: a defaultable field is not already optional.
pub open spec fn accepted(d: FieldDeclaration) -> bool {
    !(d.attrs.defaultable && is_option(d.ty))
}

/// Whether `f` is the field made from declaration `d`.
pub open spec fn made_from(f: GeormField, d: FieldDeclaration) -> bool {
    &&& f.ident@ == d.ident@
    &&& f.vis@ == d.vis@
    &&& f.ty@ == d.ty@
    &&& f.id == d.attrs.id
    &&& f.relation == d.attrs.relation
    &&& f.defaultable == d.attrs.defaultable
}

pub proof fn lemma_id_fields_nonempty(fs: Seq<GeormField>)
    ensures
        id_fields(fs).len() > 0 <==> exists|i: int| 0 <= i < fs.len() && #[trigger] fs[i].id,
    decreases fs.len(),
{
    if fs.len() > 0 {
        lemma_id_fields_nonempty(fs.drop_last());
        if exists|i: int| 0 <= i < fs.len() && #[trigger] fs[i].id {
            let i = choose|i: int| 0 <= i < fs.len() && #[trigger] fs[i].id;
            if i < fs.len() - 1 {
                assert(fs.drop_last()[i].id);
            }
        }
        if exists|i: int| 0 <= i < fs.len() - 1 && #[trigger] fs.drop_last()[i].id {
            let i = choose|i: int| 0 <= i < fs.len() - 1 && #[trigger] fs.drop_last()[i].id;
            assert(fs[i].id);
        }
    }
}

/// The fields of an entity from their declarations. Refused: the first
/// defaultable field that is already optional; then an entity with no
/// identifier field.
pub fn extract_georm_field_attrs(struct_name: &str, decls: Vec<FieldDeclaration>) -> (r: Result<
    Vec<GeormField>,
    DeclarationError,
>)
    ensures
        r is Ok <==> (forall|i: int| 0 <= i < decls@.len() ==> accepted(#[trigger] decls@[i]))
            && exists|i: int| 0 <= i < decls@.len() && #[trigger] decls@[i].attrs.id,
        r matches Ok(fs) ==> {
            &&& fs@.len() == decls@.len()
            &&& forall|i: int| 0 <= i < fs@.len() ==> made_from(#[trigger] fs@[i], decls@[i])
            &&& id_fields(fs@).len() > 0
        },
        r matches Err(DeclarationError::DefaultableOption { field }) ==> exists|i: int|
            0 <= i < decls@.len() && !accepted(#[trigger] decls@[i]) && field@ == decls@[i].ident@
                && forall|j: int| 0 <= j < i ==> accepted(#[trigger] decls@[j]),
        r matches Err(DeclarationError::NoIdentifier { entity }) ==> {
            &&& entity@ == struct_name@
            &&& forall|i: int| 0 <= i < decls@.len() ==> accepted(#[trigger] decls@[i])
            &&& forall|i: int| 0 <= i < decls@.len() ==> !(#[trigger] decls@[i]).attrs.id
        },
        r is Err ==> !(r matches Err(DeclarationError::MissingTable)),
{
    let ghost ds = decls@;
    let total = decls.len();
    let mut fields: Vec<GeormField> = Vec::new();
    let mut any_id = false;
    let mut rest = decls;
    let mut i: usize = 0;
    while rest.len() > 0
        invariant
            i + rest@.len() == ds.len(),
            ds.len() == total,
            ds == decls@,
            rest@ == ds.skip(i as int),
            fields@.len() == i,
            forall|j: int| 0 <= j < i ==> made_from(#[trigger] fields@[j], ds[j]),
            forall|j: int| 0 <= j < i ==> accepted(#[trigger] ds[j]),
            any_id <==> exists|j: int| 0 <= j < i && #[trigger] ds[j].attrs.id,
        decreases rest@.len(),
    {
        let d = rest.remove(0);
        assert(d == ds[i as int]);
        assert(rest@ =~= ds.skip(i + 1));
        let is_id = d.attrs.id;
        match GeormField::new(d.ident, d.vis, d.ty, d.attrs) {
            Err(e) => {
                assert(!accepted(decls@[i as int]));
                return Err(e);
            },
            Ok(f) => {
                fields.push(f);
            },
        }
        if is_id {
            any_id = true;
        }
        i = i + 1;
    }
    if !any_id {
        return Err(DeclarationError::NoIdentifier { entity: String::from_str(struct_name) });
    }
    proof {
        lemma_id_fields_nonempty(fields@);
        let j = choose|j: int| 0 <= j < i && #[trigger] ds[j].attrs.id;
        assert(fields@[j].id);
    }
    Ok(fields)
}

/// The statements of an entity's operations.
#[derive(Debug, Clone)]
pub struct Operations {
    pub find_all: Query,
    pub find: Query,
    pub create: Query,
    pub update: Query,
    pub upsert: Query,
    pub delete: Query,
}

/// Whether `ops` are the statements of an entity on `table` with `fields`
/// and identifier `id`.
pub open spec fn operations_of(
    ops: Operations,
    table: Seq<char>,
    fields: Seq<GeormField>,
    id: IdType,
) -> bool {
    let cols = field_names(fields);
    let sets = field_names(non_id_fields(fields));
    let keys = id.key_names();
    &&& ops.find_all@ == (find_all_sql(table), Seq::<Seq<char>>::empty())
    &&& ops.find@ == (find_sql(table, keys), keys)
    &&& ops.create@ == (create_sql(table, cols), cols)
    &&& ops.update@ == (update_sql(table, sets, keys), sets + keys)
    &&& ops.upsert@ == (upsert_sql(table, cols, keys, sets), cols)
    &&& ops.delete@ == (delete_sql(table, keys), keys)
}

/// Every statement of an entity: find all, find by key, create, update,
/// upsert and delete by key.
pub fn derive_trait(table: &str, fields: &Vec<GeormField>, id: &IdType) -> (r: Operations)
    requires
        keys_of(*id, fields@),
    ensures
        operations_of(r, table@, fields@, *id),
{
    Operations {
        find_all: generate_find_all_query(table),
        find: generate_find_query(table, id),
        create: generate_create_query(table, fields),
        update: generate_update_query(table, fields, id),
        upsert: generate_upsert_query(table, fields, id),
        delete: generate_delete_query(table, id),
    }
}

/// Everything generated for one entity.
#[derive(Debug, Clone)]
pub struct EntityPlan {
    pub fields: Vec<GeormField>,
    pub id: IdType,
    pub key_struct: Option<KeyStruct>,
    pub defaultable: Option<DefaultableStruct>,
    pub relationships: Relationships,
    pub operations: Operations,
}

/// Generates entity `struct_name` from its struct-level block and its field
/// declarations: refused when a field declaration is refused or no field is
/// an identifier; otherwise its key, companion struct, accessors and
/// statements.
pub fn derive_entity(
    struct_name: &str,
    vis: &str,
    struct_attrs: &GeormStructAttributes,
    decls: Vec<FieldDeclaration>,
) -> (r: Result<EntityPlan, DeclarationError>)
    ensures
        r is Ok <==> (forall|i: int| 0 <= i < decls@.len() ==> accepted(#[trigger] decls@[i]))
            && exists|i: int| 0 <= i < decls@.len() && #[trigger] decls@[i].attrs.id,
        r matches Ok(p) ==> {
            &&& p.fields@.len() == decls@.len()
            &&& forall|i: int| 0 <= i < p.fields@.len() ==> made_from(#[trigger] p.fields@[i], decls@[i])
            &&& p.id.describes(struct_name@, p.fields@)
            &&& (p.key_struct is Some <==> p.id is Composite)
            &&& p.key_struct matches Some(k) ==> {
                &&& k.name@ == key_struct_name(struct_name@)
                &&& k.vis@ == vis@
                &&& are_members_of(k.fields@, id_fields(p.fields@))
                &&& views(k.derives@) == key_derives()
            }
            &&& (p.defaultable is Some <==> has_defaultable(p.fields@))
            &&& p.defaultable matches Some(d) ==> {
                &&& d.name@ == companion_name(struct_name@)
                &&& d.table@ == struct_attrs.table@
                &&& d.id_type.tokens@ == key_type_text(p.id)
                &&& (p.id matches IdType::Composite { .. } ==> d.id_type.tokens@ == key_struct_name(
                    struct_name@,
                ))
                &&& (p.id matches IdType::Simple { field_type, .. } ==> d.id_type@ == field_type@)
                &&& d.fields@.len() == p.fields@.len()
                &&& forall|i: int|
                    0 <= i < p.fields@.len() ==> is_companion_field(
                        #[trigger] d.fields@[i],
                        p.fields@[i],
                    )
                &&& column_views(d.columns@) == columns_of(p.fields@)
            }
            &&& operations_of(p.operations, struct_attrs.table@, p.fields@, p.id)
            &&& match p.id {
                IdType::Composite { .. } => {
                    &&& p.relationships.accessors@.len() == 0
                    &&& p.relationships.warning matches Some(w) && w@ == composite_warning(
                        struct_name@,
                    )
                },
                IdType::Simple { field_name, .. } => {
                    &&& p.relationships.warning is None
                    &&& models(p.relationships.accessors@) == all_accessors(
                        *struct_attrs,
                        p.fields@,
                        field_name@,
                    )
                },
            }
        },
{
    let fields = match extract_georm_field_attrs(struct_name, decls) {
        Ok(fields) => fields,
        Err(e) => {
            return Err(e);
        },
    };
    let (id, key_struct) = create_primary_key(struct_name, vis, &fields);
    let defaultable = derive_defaultable_struct(
        struct_name,
        vis,
        struct_attrs.table.as_str(),
        &fields,
        &id,
    );
    proof {
        crate::keys::lemma_describes_names(id, struct_name@, fields@);
    }
    let relationships = derive_relationships(struct_name, struct_attrs, &fields, &id);
    let operations = derive_trait(struct_attrs.table.as_str(), &fields, &id);
    Ok(EntityPlan { fields, id, key_struct, defaultable, relationships, operations })
}

} // verus!

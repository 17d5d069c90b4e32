//! Creation with database defaults. For an entity with defaultable fields the
//! generator adds a companion struct `<Entity>Default`, in which each
//! defaultable field is optional. Its `create` inserts only the columns that
//! hold a value, so that the database supplies the others.
use vstd::prelude::*;
use crate::ir::{GeormField, TypeRef};
use crate::keys::{IdType, key_type_text};
use crate::query::{Query, create_sql};
use crate::text::{views, push_joined, push_placeholder_list};

verus! {

/// One column of the companion struct's insert.
#[derive(Debug, Clone)]
pub struct InsertColumn {
    pub name: String,
    pub defaultable: bool,
}

impl View for InsertColumn {
    type V = (Seq<char>, bool);

    open spec fn view(&self) -> (Seq<char>, bool) {
        (self.name@, self.defaultable)
    }
}

/// The views of a sequence of columns.
pub open spec fn column_views(cols: Seq<InsertColumn>) -> Seq<(Seq<char>, bool)> {
    Seq::new(cols.len(), |i: int| cols[i]@)
}

/// The columns an insert names: each column that is not defaultable, and each
/// defaultable one whose value is present, in declaration order.
pub open spec fn included(cols: Seq<(Seq<char>, bool)>, present: Seq<bool>) -> Seq<Seq<char>>
    decreases cols.len(),
{
    if cols.len() == 0 {
        Seq::empty()
    } else {
        let rest = included(cols.drop_last(), present.take(cols.len() - 1));
        if !cols.last().1 || present[cols.len() - 1] {
            rest.push(cols.last().0)
        } else {
            rest
        }
    }
}

/// The columns that are not defaultable, in declaration order.
pub open spec fn required(cols: Seq<(Seq<char>, bool)>) -> Seq<Seq<char>>
    decreases cols.len(),
{
    if cols.len() == 0 {
        Seq::empty()
    } else if !cols.last().1 {
        required(cols.drop_last()).push(cols.last().0)
    } else {
        required(cols.drop_last())
    }
}

/// Accumulates the columns of an insert; the column list and the placeholder
/// list are both rendered from what it holds.
#[derive(Debug, Clone)]
pub struct InsertBuilder {
    table: String,
    columns: Vec<String>,
}

impl View for InsertBuilder {
    type V = (Seq<char>, Seq<Seq<char>>);

    closed spec fn view(&self) -> (Seq<char>, Seq<Seq<char>>) {
        (self.table@, views(self.columns@))
    }
}

impl InsertBuilder {
    /// An insert into `table` with no column yet.
    pub fn new(table: &str) -> (r: Self)
        ensures
            r@ == (table@, Seq::<Seq<char>>::empty()),
    {
        let columns: Vec<String> = Vec::new();
        assert(views(columns@) =~= Seq::<Seq<char>>::empty());
        InsertBuilder { table: String::from_str(table), columns }
    }

    /// Adds a column after those already held.
    pub fn column(&mut self, name: &str)
        ensures
            final(self)@ == (old(self)@.0, old(self)@.1.push(name@)),
    {
        let ghost prev = views(self.columns@);
        self.columns.push(String::from_str(name));
        assert(views(self.columns@) =~= prev.push(name@));
    }

    /// `INSERT INTO <table> (<columns>) VALUES ($1, ...) RETURNING *`, binding
    /// the columns in the order they were added.
    pub fn build(&self) -> (r: Query)
        ensures
            r@ == (create_sql(self@.0, self@.1), self@.1),
    {
        let mut sql = String::from_str("INSERT INTO ");
        sql.append(self.table.as_str());
        sql.append(" (");
        push_joined(&mut sql, &self.columns, ", ");
        sql.append(") VALUES (");
        push_placeholder_list(&mut sql, &self.columns, ", ");
        sql.append(")");
        sql.append(" RETURNING *");
        let mut binds: Vec<String> = Vec::new();
        let mut i: usize = 0;
        while i < self.columns.len()
            invariant
                i <= self.columns.len(),
                binds@.len() == i,
                forall|j: int| 0 <= j < i ==> binds@[j] == self.columns@[j],
            decreases self.columns.len() - i,
        {
            binds.push(self.columns[i].clone());
            i = i + 1;
        }
        assert(views(binds@) =~= views(self.columns@));
        Query { sql, binds }
    }
}

/// The insert that the companion struct's `create` runs: `present[i]` tells
/// whether column `i`, when defaultable, holds a value.
pub fn defaultable_insert_query(table: &str, columns: &Vec<InsertColumn>, present: &Vec<bool>) -> (r:
    Query)
    requires
        present.len() == columns.len(),
    ensures
        r@ == (
            create_sql(table@, included(column_views(columns@), present@)),
            included(column_views(columns@), present@),
        ),
{
    let ghost cols = column_views(columns@);
    let mut builder = InsertBuilder::new(table);
    let mut i: usize = 0;
    while i < columns.len()
        invariant
            i <= columns.len(),
            present.len() == columns.len(),
            cols == column_views(columns@),
            builder@ == (table@, included(cols.take(i as int), present@.take(i as int))),
        decreases columns.len() - i,
    {
        proof {
            assert(cols.take(i + 1).drop_last() =~= cols.take(i as int));
            assert(present@.take(i + 1).take(i as int) =~= present@.take(i as int));
        }
        if !columns[i].defaultable || present[i] {
            builder.column(columns[i].name.as_str());
        }
        i = i + 1;
    }
    assert(cols.take(columns.len() as int) =~= cols);
    assert(present@.take(columns.len() as int) =~= present@);
    builder.build()
}

/// A field of the companion struct: the entity's field, wrapped in `Option`
/// when it is defaultable.
#[derive(Debug, Clone)]
pub struct DefaultableField {
    pub vis: String,
    pub ident: String,
    pub ty: TypeRef,
    pub optional: bool,
}

/// The companion struct of an entity and what its `create` needs.
#[derive(Debug, Clone)]
pub struct DefaultableStruct {
    pub name: String,
    pub vis: String,
    pub table: String,
    /// The entity's key type.
    pub id_type: TypeRef,
    pub fields: Vec<DefaultableField>,
    pub columns: Vec<InsertColumn>,
}

/// Whether `d` is the companion field made from `f`.
pub open spec fn is_companion_field(d: DefaultableField, f: GeormField) -> bool {
    &&& d.vis@ == f.vis@
    &&& d.ident@ == f.ident@
    &&& d.ty@ == f.ty@
    &&& d.optional == f.defaultable
}

/// The name of the companion struct: `<Entity>Default`.
pub open spec fn companion_name(entity: Seq<char>) -> Seq<char> {
    entity + "Default"@
}

/// The insert columns of the fields, in declaration order.
pub open spec fn columns_of(fs: Seq<GeormField>) -> Seq<(Seq<char>, bool)> {
    Seq::new(fs.len(), |i: int| (fs[i].ident@, fs[i].defaultable))
}

/// Whether some field is defaultable.
pub open spec fn has_defaultable(fs: Seq<GeormField>) -> bool {
    exists|i: int| 0 <= i < fs.len() && #[trigger] fs[i].defaultable
}

/// The companion field made from `field`.
fn create_defaultable_field(field: &GeormField) -> (r: DefaultableField)
    ensures
        is_companion_field(r, *field),
{
    DefaultableField {
        vis: field.vis.clone(),
        ident: field.ident.clone(),
        ty: field.ty.copy(),
        optional: field.defaultable,
    }
}

/// The companion struct of entity `struct_name`, or none when no field is
/// defaultable. Its `create` is keyed by the entity's key type `id`.
pub fn derive_defaultable_struct(
    struct_name: &str,
    vis: &str,
    table: &str,
    fields: &Vec<GeormField>,
    id: &IdType,
) -> (r: Option<DefaultableStruct>)
    ensures
        r is Some <==> has_defaultable(fields@),
        r matches Some(d) ==> {
            &&& d.name@ == companion_name(struct_name@)
            &&& d.vis@ == vis@
            &&& d.table@ == table@
            &&& d.id_type.tokens@ == key_type_text(*id)
            &&& (id matches IdType::Simple { field_type, .. } ==> d.id_type@ == field_type@)
            &&& d.fields@.len() == fields@.len()
            &&& forall|i: int|
                0 <= i < fields@.len() ==> is_companion_field(#[trigger] d.fields@[i], fields@[i])
            &&& column_views(d.columns@) == columns_of(fields@)
        },
{
    let mut any = false;
    let mut companion: Vec<DefaultableField> = Vec::new();
    let mut columns: Vec<InsertColumn> = Vec::new();
    let mut i: usize = 0;
    while i < fields.len()
        invariant
            i <= fields.len(),
            any <==> exists|j: int| 0 <= j < i && #[trigger] fields@[j].defaultable,
            companion@.len() == i,
            forall|j: int| 0 <= j < i ==> is_companion_field(#[trigger] companion@[j], fields@[j]),
            columns@.len() == i,
            forall|j: int|
                0 <= j < i ==> (#[trigger] columns@[j])@ == (fields@[j].ident@, fields@[j].defaultable),
        decreases fields.len() - i,
    {
        companion.push(create_defaultable_field(&fields[i]));
        columns.push(InsertColumn { name: fields[i].ident.clone(), defaultable: fields[i].defaultable });
        if fields[i].defaultable {
            any = true;
        }
        i = i + 1;
    }
    assert(column_views(columns@) =~= columns_of(fields@));
    if !any {
        return None;
    }
    let mut name = String::from_str(struct_name);
    name.append("Default");
    Some(
        DefaultableStruct {
            name,
            vis: String::from_str(vis),
            table: String::from_str(table),
            id_type: id.key_type(),
            fields: companion,
            columns,
        },
    )
}

/// Defaultable insertion. The insert of the companion struct names exactly
/// the columns that are not defaultable and the defaultable ones holding a
/// value, in declaration order, with one placeholder for each, `$1` first;
/// with no defaultable value present it names only the required columns.
pub proof fn defaultable_insertion(cols: Seq<(Seq<char>, bool)>, present: Seq<bool>)
    requires
        present.len() == cols.len(),
    ensures
        crate::query::well_numbered(
            crate::text::numbered(included(cols, present), 0),
            included(cols, present),
        ),
        (forall|i: int| 0 <= i < present.len() ==> !present[i]) ==> included(cols, present)
            == required(cols),
        (forall|i: int| 0 <= i < present.len() ==> present[i]) ==> included(cols, present)
            == Seq::new(cols.len(), |i: int| cols[i].0),
    decreases cols.len(),
{
    if cols.len() > 0 {
        let n = cols.len() - 1;
        defaultable_insertion(cols.drop_last(), present.take(n));
        assert(included(cols, present) == if !cols.last().1 || present[n] {
            included(cols.drop_last(), present.take(n)).push(cols.last().0)
        } else {
            included(cols.drop_last(), present.take(n))
        });
        if forall|i: int| 0 <= i < present.len() ==> present[i] {
            assert(included(cols.drop_last(), present.take(n)) =~= Seq::new(
                n as nat,
                |i: int| cols[i].0,
            ));
            assert(included(cols, present) =~= Seq::new(cols.len(), |i: int| cols[i].0));
        }
    } else {
        assert(included(cols, present) =~= Seq::new(cols.len(), |i: int| cols[i].0));
    }
}

} // verus!

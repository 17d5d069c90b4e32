//! SQL text for the operations on one table, each with the ordered list of
//! the values it binds: placeholder `$i` takes the `i`-th bound value.
use vstd::prelude::*;
use crate::ir::GeormField;
use crate::keys::{IdType, field_names, id_fields, non_id_fields, lemma_id_fields_len, lemma_id_fields_take};
use crate::text::{
    views, joined, numbered, eq_texts, placeholder_texts, excluded_texts, push_joined,
    push_eq_list, push_placeholder_list, push_excluded_list,
};

verus! {

/// A statement and the names of the values it binds, in placeholder order.
#[derive(Debug, Clone)]
pub struct Query {
    pub sql: String,
    pub binds: Vec<String>,
}

impl View for Query {
    type V = (Seq<char>, Seq<Seq<char>>);

    open spec fn view(&self) -> (Seq<char>, Seq<Seq<char>>) {
        (self.sql@, views(self.binds@))
    }
}

/// Whether `id` is the identifier of `fields`: its key columns are the
/// identifier fields, in declaration order.
pub open spec fn keys_of(id: IdType, fields: Seq<GeormField>) -> bool {
    id.key_names() == field_names(id_fields(fields))
}

/// `k1 = $o+1 AND k2 = $o+2 ...`
pub open spec fn id_condition(keys: Seq<Seq<char>>, offset: nat) -> Seq<char> {
    joined(eq_texts(numbered(keys, offset)), " AND "@)
}

pub open spec fn find_all_sql(table: Seq<char>) -> Seq<char> {
    "SELECT * FROM "@ + table
}

pub open spec fn find_sql(table: Seq<char>, keys: Seq<Seq<char>>) -> Seq<char> {
    "SELECT * FROM "@ + table + " WHERE "@ + id_condition(keys, 0)
}

/// `INSERT INTO t (c1, c2, ...) VALUES ($1, $2, ...)`
pub open spec fn insert_sql(table: Seq<char>, cols: Seq<Seq<char>>) -> Seq<char> {
    "INSERT INTO "@ + table + " ("@ + joined(cols, ", "@) + ") VALUES ("@ + joined(
        placeholder_texts(numbered(cols, 0)),
        ", "@,
    ) + ")"@
}

pub open spec fn create_sql(table: Seq<char>, cols: Seq<Seq<char>>) -> Seq<char> {
    insert_sql(table, cols) + " RETURNING *"@
}

pub open spec fn update_sql(table: Seq<char>, sets: Seq<Seq<char>>, keys: Seq<Seq<char>>) -> Seq<
    char,
> {
    "UPDATE "@ + table + " SET "@ + joined(eq_texts(numbered(sets, 0)), ", "@) + " WHERE "@
        + id_condition(keys, sets.len()) + " RETURNING *"@
}

pub open spec fn upsert_sql(
    table: Seq<char>,
    cols: Seq<Seq<char>>,
    keys: Seq<Seq<char>>,
    sets: Seq<Seq<char>>,
) -> Seq<char> {
    insert_sql(table, cols) + " ON CONFLICT ("@ + joined(keys, ", "@) + ") DO UPDATE SET "@
        + joined(excluded_texts(sets), ", "@) + " RETURNING *"@
}

pub open spec fn delete_sql(table: Seq<char>, keys: Seq<Seq<char>>) -> Seq<char> {
    "DELETE FROM "@ + table + " WHERE "@ + id_condition(keys, 0)
}

/// The names of all fields, in declaration order.
pub fn all_names(fields: &Vec<GeormField>) -> (r: Vec<String>)
    ensures
        views(r@) == field_names(fields@),
{
    let mut r: Vec<String> = Vec::new();
    let mut i: usize = 0;
    while i < fields.len()
        invariant
            i <= fields.len(),
            r@.len() == i,
            forall|j: int| 0 <= j < i ==> r@[j]@ == fields@[j].ident@,
        decreases fields.len() - i,
    {
        r.push(fields[i].ident.clone());
        i = i + 1;
    }
    assert(views(r@) =~= field_names(fields@));
    r
}

/// The names of the fields not marked as identifier, in declaration order.
pub fn non_id_names(fields: &Vec<GeormField>) -> (r: Vec<String>)
    ensures
        views(r@) == field_names(non_id_fields(fields@)),
{
    let mut r: Vec<String> = Vec::new();
    let mut i: usize = 0;
    while i < fields.len()
        invariant
            i <= fields.len(),
            views(r@) == field_names(non_id_fields(fields@.take(i as int))),
        decreases fields.len() - i,
    {
        proof {
            lemma_id_fields_take(fields@, i as int);
        }
        if !fields[i].id {
            let ghost prev = r@;
            r.push(fields[i].ident.clone());
            assert(field_names(non_id_fields(fields@.take(i + 1))) =~= field_names(
                non_id_fields(fields@.take(i as int)),
            ).push(fields@[i as int].ident@));
            assert(views(r@) =~= views(prev).push(fields@[i as int].ident@));
        } else {
            assert(views(r@) =~= field_names(non_id_fields(fields@.take(i + 1))));
        }
        i = i + 1;
    }
    assert(fields@.take(fields.len() as int) =~= fields@);
    r
}

/// `SELECT * FROM <table>`, binding nothing.
pub fn generate_find_all_query(table: &str) -> (r: Query)
    ensures
        r@ == (find_all_sql(table@), Seq::<Seq<char>>::empty()),
{
    let mut sql = String::from_str("SELECT * FROM ");
    sql.append(table);
    let binds: Vec<String> = Vec::new();
    assert(views(binds@) =~= Seq::<Seq<char>>::empty());
    Query { sql, binds }
}

/// The row whose key equals the given key, binding the key columns in order.
pub fn generate_find_query(table: &str, id: &IdType) -> (r: Query)
    ensures
        r@ == (find_sql(table@, id.key_names()), id.key_names()),
{
    let keys = id.names();
    let mut sql = String::from_str("SELECT * FROM ");
    sql.append(table);
    sql.append(" WHERE ");
    push_eq_list(&mut sql, &keys, 0, " AND ");
    Query { sql, binds: keys }
}

/// Inserts a row with every field, binding the fields in declaration order.
pub fn generate_create_query(table: &str, fields: &Vec<GeormField>) -> (r: Query)
    ensures
        r@ == (create_sql(table@, field_names(fields@)), field_names(fields@)),
{
    let cols = all_names(fields);
    let mut sql = String::from_str("INSERT INTO ");
    sql.append(table);
    sql.append(" (");
    push_joined(&mut sql, &cols, ", ");
    sql.append(") VALUES (");
    push_placeholder_list(&mut sql, &cols, ", ");
    sql.append(")");
    sql.append(" RETURNING *");
    Query { sql, binds: cols }
}

/// Sets every non-identifier field of the row with this key, binding the
/// non-identifier fields first and the key columns after them.
pub fn generate_update_query(table: &str, fields: &Vec<GeormField>, id: &IdType) -> (r: Query)
    requires
        keys_of(*id, fields@),
    ensures
        r@ == (
            update_sql(table@, field_names(non_id_fields(fields@)), id.key_names()),
            field_names(non_id_fields(fields@)) + id.key_names(),
        ),
{
    let mut sets = non_id_names(fields);
    let mut keys = id.names();
    let total = fields.len();
    proof {
        lemma_id_fields_len(fields@);
        assert(views(sets@).len() == sets@.len());
        assert(views(keys@).len() == keys@.len());
        assert(keys@.len() == id_fields(fields@).len());
        assert(sets@.len() == non_id_fields(fields@).len());
    }
    let mut sql = String::from_str("UPDATE ");
    sql.append(table);
    sql.append(" SET ");
    push_eq_list(&mut sql, &sets, 0, ", ");
    sql.append(" WHERE ");
    push_eq_list(&mut sql, &keys, sets.len(), " AND ");
    sql.append(" RETURNING *");
    let ghost set_names = views(sets@);
    let ghost key_names = views(keys@);
    sets.append(&mut keys);
    assert(views(sets@) =~= set_names + key_names);
    Query { sql, binds: sets }
}

/// Inserts a row with every field or, when a row with its key exists, sets
/// that row's non-identifier fields to the new values; binds the fields in
/// declaration order.
pub fn generate_upsert_query(table: &str, fields: &Vec<GeormField>, id: &IdType) -> (r: Query)
    ensures
        r@ == (
            upsert_sql(
                table@,
                field_names(fields@),
                id.key_names(),
                field_names(non_id_fields(fields@)),
            ),
            field_names(fields@),
        ),
{
    let cols = all_names(fields);
    let keys = id.names();
    let sets = non_id_names(fields);
    let mut sql = String::from_str("INSERT INTO ");
    sql.append(table);
    sql.append(" (");
    push_joined(&mut sql, &cols, ", ");
    sql.append(") VALUES (");
    push_placeholder_list(&mut sql, &cols, ", ");
    sql.append(")");
    sql.append(" ON CONFLICT (");
    push_joined(&mut sql, &keys, ", ");
    sql.append(") DO UPDATE SET ");
    push_excluded_list(&mut sql, &sets, ", ");
    sql.append(" RETURNING *");
    Query { sql, binds: cols }
}

/// Deletes the row with this key, binding the key columns in order.
pub fn generate_delete_query(table: &str, id: &IdType) -> (r: Query)
    ensures
        r@ == (delete_sql(table@, id.key_names()), id.key_names()),
{
    let keys = id.names();
    let mut sql = String::from_str("DELETE FROM ");
    sql.append(table);
    sql.append(" WHERE ");
    push_eq_list(&mut sql, &keys, 0, " AND ");
    Query { sql, binds: keys }
}

/// Whether placeholder `$i` of `slots` is the column that takes the `i`-th
/// bound value, for every `i`, and there are as many slots as bound values.
pub open spec fn well_numbered(slots: Seq<(Seq<char>, nat)>, binds: Seq<Seq<char>>) -> bool {
    &&& slots.len() == binds.len()
    &&& forall|i: int| 0 <= i < slots.len() ==> #[trigger] slots[i] == (binds[i], (i + 1) as nat)
}

proof fn lemma_numbered_well(cols: Seq<Seq<char>>)
    ensures
        well_numbered(numbered(cols, 0), cols),
{
}

/// Placeholder numbering. In every statement generated for an entity, the
/// column next to placeholder `$i` is the `i`-th bound value, and there are as
/// many placeholders as bound values: all fields for create and upsert, the
/// non-identifier fields then the key columns for update, the key columns for
/// find and delete.
pub proof fn placeholder_numbering(table: Seq<char>, fields: Seq<GeormField>, id: IdType)
    requires
        keys_of(id, fields),
    ensures
        ({
            let cols = field_names(fields);
            let slots = numbered(cols, 0);
            &&& well_numbered(slots, cols)
            &&& cols.len() == fields.len()
            &&& create_sql(table, cols) == "INSERT INTO "@ + table + " ("@ + joined(cols, ", "@)
                + ") VALUES ("@ + joined(placeholder_texts(slots), ", "@) + ")"@ + " RETURNING *"@
            &&& upsert_sql(table, cols, id.key_names(), field_names(non_id_fields(fields)))
                == "INSERT INTO "@ + table + " ("@ + joined(cols, ", "@) + ") VALUES ("@ + joined(
                placeholder_texts(slots),
                ", "@,
            ) + ")"@ + " ON CONFLICT ("@ + joined(id.key_names(), ", "@) + ") DO UPDATE SET "@
                + joined(excluded_texts(field_names(non_id_fields(fields))), ", "@)
                + " RETURNING *"@
        }),
        ({
            let sets = field_names(non_id_fields(fields));
            let keys = id.key_names();
            let slots = numbered(sets + keys, 0);
            &&& well_numbered(slots, sets + keys)
            &&& (sets + keys).len() == non_id_fields(fields).len() + id_fields(fields).len()
            &&& (sets + keys).len() == fields.len()
            &&& update_sql(table, sets, keys) == "UPDATE "@ + table + " SET "@ + joined(
                eq_texts(slots.take(sets.len() as int)),
                ", "@,
            ) + " WHERE "@ + joined(eq_texts(slots.skip(sets.len() as int)), " AND "@)
                + " RETURNING *"@
        }),
        ({
            let keys = id.key_names();
            let slots = numbered(keys, 0);
            &&& well_numbered(slots, keys)
            &&& find_sql(table, keys) == "SELECT * FROM "@ + table + " WHERE "@ + joined(
                eq_texts(slots),
                " AND "@,
            )
            &&& delete_sql(table, keys) == "DELETE FROM "@ + table + " WHERE "@ + joined(
                eq_texts(slots),
                " AND "@,
            )
        }),
{
    let sets = field_names(non_id_fields(fields));
    let keys = id.key_names();
    let slots = numbered(sets + keys, 0);
    lemma_numbered_well(field_names(fields));
    lemma_numbered_well(sets + keys);
    lemma_numbered_well(keys);
    crate::keys::lemma_id_fields_len(fields);
    assert(slots.take(sets.len() as int) =~= numbered(sets, 0));
    assert(slots.skip(sets.len() as int) =~= numbered(keys, sets.len()));
}

/// The values of the key columns of `row`, in key order: what `get_id`
/// returns for an entity holding `row`.
pub open spec fn key_of<V>(id: IdType, row: Map<Seq<char>, V>) -> Seq<V> {
    Seq::new(id.key_names().len(), |j: int| row[id.key_names()[j]])
}

/// Whether `row` meets each condition `column = $p` of `slots` when the
/// placeholders are bound to `args`.
pub open spec fn satisfies<V>(
    slots: Seq<(Seq<char>, nat)>,
    args: Seq<V>,
    row: Map<Seq<char>, V>,
) -> bool {
    forall|j: int| 0 <= j < slots.len() ==> row[#[trigger] slots[j].0] == args[slots[j].1 - 1]
}

/// Key round trip. The key of an entity holds the values of its identifier
/// fields, in declaration order, as a key built from those values would; and
/// `find` with that key selects exactly the rows that agree with the entity
/// on every identifier field, the entity's own row among them.
pub proof fn composite_key_round_trip<V>(
    entity: Seq<char>,
    fields: Seq<GeormField>,
    id: IdType,
    instance: Map<Seq<char>, V>,
    row: Map<Seq<char>, V>,
)
    requires
        id.describes(entity, fields),
    ensures
        ({
            let ids = field_names(id_fields(fields));
            key_of(id, instance) == Seq::new(ids.len(), |j: int| instance[ids[j]])
        }),
        satisfies(numbered(id.key_names(), 0), key_of(id, instance), row) <==> forall|j: int|
            0 <= j < id.key_names().len() ==> row[id.key_names()[j]] == instance[id.key_names()[j]],
        satisfies(numbered(id.key_names(), 0), key_of(id, instance), instance),
{
    crate::keys::lemma_describes_names(id, entity, fields);
    let ids = field_names(id_fields(fields));
    assert(key_of(id, instance) =~= Seq::new(ids.len(), |j: int| instance[ids[j]]));
    let slots = numbered(id.key_names(), 0);
    if satisfies(slots, key_of(id, instance), row) {
        assert forall|j: int| 0 <= j < id.key_names().len() implies row[id.key_names()[j]]
            == instance[id.key_names()[j]] by {
            assert(row[slots[j].0] == key_of(id, instance)[slots[j].1 - 1]);
        }
    }
}

/// A row as the generated statements see it: each column's value, `None`
/// standing for NULL.
pub type Row<V> = Map<Seq<char>, Option<V>>;

/// `a = b` in SQL: never true when either side is NULL.
pub open spec fn sql_eq<V>(a: Option<V>, b: Option<V>) -> bool {
    a is Some && a == b
}

/// Whether two rows have equal, non-NULL values in every key column.
pub open spec fn agrees_on<V>(a: Row<V>, b: Row<V>, keys: Seq<Seq<char>>) -> bool {
    forall|j: int| 0 <= j < keys.len() ==> #[trigger] sql_eq(a[keys[j]], b[keys[j]])
}

/// Whether no two rows of a table share a key.
pub open spec fn unique_keys<V>(rows: Seq<Row<V>>, keys: Seq<Seq<char>>) -> bool {
    forall|i: int, j: int|
        0 <= i < rows.len() && 0 <= j < rows.len() && #[trigger] agrees_on(rows[i], rows[j], keys)
            ==> i == j
}

/// Whether some stored row has the key of `r`.
pub open spec fn conflicts<V>(rows: Seq<Row<V>>, keys: Seq<Seq<char>>, r: Row<V>) -> bool {
    exists|i: int| 0 <= i < rows.len() && #[trigger] agrees_on(rows[i], r, keys)
}

/// The stored row that has the key of `r`.
pub open spec fn conflict_index<V>(rows: Seq<Row<V>>, keys: Seq<Seq<char>>, r: Row<V>) -> int {
    choose|i: int| 0 <= i < rows.len() && #[trigger] agrees_on(rows[i], r, keys)
}

/// `old` with the columns `sets` taken from `new`.
pub open spec fn overwrite<V>(old: Row<V>, new: Row<V>, sets: Seq<Seq<char>>) -> Row<V> {
    Map::new(
        |c: Seq<char>| old.dom().contains(c),
        |c: Seq<char>|
            if sets.contains(c) && new.dom().contains(c) {
                new[c]
            } else {
                old[c]
            },
    )
}

/// The table after `INSERT ... ON CONFLICT (<keys>) DO UPDATE SET <sets>` of
/// row `r`: the row with `r`'s key takes `r`'s values in `sets`; without one,
/// `r` is added.
pub open spec fn upsert_effect<V>(
    rows: Seq<Row<V>>,
    keys: Seq<Seq<char>>,
    sets: Seq<Seq<char>>,
    r: Row<V>,
) -> Seq<Row<V>> {
    if conflicts(rows, keys, r) {
        let i = conflict_index(rows, keys, r);
        rows.update(i, overwrite(rows[i], r, sets))
    } else {
        rows.push(r)
    }
}

/// The table after a plain `INSERT` of row `r`.
pub open spec fn create_effect<V>(rows: Seq<Row<V>>, r: Row<V>) -> Seq<Row<V>> {
    rows.push(r)
}

/// Upsert idempotence. In a table whose rows hold the key columns and have
/// distinct keys (as the unique index that `ON CONFLICT` needs ensures), the
/// upsert of an entity whose key has no NULL member (conflict target: its key
/// columns; updated: its other fields) leaves the table as it was after the first
/// upsert when it is run again with the same values; and when no row had the
/// entity's key, it adds the row that a create would add.
pub proof fn upsert_idempotence<V>(
    fields: Seq<GeormField>,
    id: IdType,
    rows: Seq<Row<V>>,
    r: Row<V>,
)
    requires
        keys_of(id, fields),
        unique_keys(rows, id.key_names()),
        forall|i: int, j: int|
            0 <= i < rows.len() && 0 <= j < id.key_names().len() ==> (#[trigger] rows[i]).dom().contains(
                #[trigger] id.key_names()[j],
            ),
        forall|j: int|
            0 <= j < id.key_names().len() ==> r.dom().contains(#[trigger] id.key_names()[j])
                && r[id.key_names()[j]] is Some,
    ensures
        ({
            let keys = id.key_names();
            let sets = field_names(non_id_fields(fields));
            let once = upsert_effect(rows, keys, sets, r);
            &&& upsert_effect(once, keys, sets, r) == once
            &&& !conflicts(rows, keys, r) ==> once == create_effect(rows, r)
        }),
{
    let keys = id.key_names();
    let sets = field_names(non_id_fields(fields));
    let once = upsert_effect(rows, keys, sets, r);
    assert(agrees_on(r, r, keys));
    if conflicts(rows, keys, r) {
        let i = conflict_index(rows, keys, r);
        let o = overwrite(rows[i], r, sets);
        assert(agrees_on(o, r, keys)) by {
            assert forall|j: int| 0 <= j < keys.len() implies #[trigger] sql_eq(
                o[keys[j]],
                r[keys[j]],
            ) by {
                assert(sql_eq(rows[i][keys[j]], r[keys[j]]));
            }
        }
        assert(once[i] == o);
        assert(conflicts(once, keys, r));
        let k = conflict_index(once, keys, r);
        if k != i {
            assert(once[k] == rows[k]);
            assert(agrees_on(rows[k], rows[i], keys)) by {
                assert forall|j: int| 0 <= j < keys.len() implies #[trigger] sql_eq(
                    rows[k][keys[j]],
                    rows[i][keys[j]],
                ) by {
                    assert(sql_eq(rows[k][keys[j]], r[keys[j]]));
                    assert(sql_eq(rows[i][keys[j]], r[keys[j]]));
                }
            }
        }
        assert(overwrite(o, r, sets) =~= o);
        assert(once.update(i, overwrite(once[i], r, sets)) =~= once);
    } else {
        let n = rows.len() as int;
        assert(once[n] == r);
        assert(conflicts(once, keys, r));
        let k = conflict_index(once, keys, r);
        if k != n {
            assert(once[k] == rows[k]);
            assert(agrees_on(rows[k], r, keys));
        }
        assert(overwrite(r, r, sets) =~= r);
        assert(once.update(n, overwrite(once[n], r, sets)) =~= once);
    }
}

} // verus!

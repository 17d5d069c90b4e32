//! The accessors that traverse an entity's relationships: one `get_<name>`
//! method for each relation held by a field and each relationship declared on
//! the struct. Entities with a composite identifier get none, and a warning.
use vstd::prelude::*;
use crate::ir::{
    GeormField, GeormStructAttributes, M2MRelationship, M2MRelationshipComplete, OneToMany,
    OneToOne, SimpleRelationship, function_name, function_name_text, select_where,
    select_where_text,
};
use crate::keys::IdType;
use crate::query::{Row, sql_eq};

verus! {

/// How many rows an accessor fetches.
#[derive(Debug, Clone, Copy, PartialEq, Eq, Structural)]
pub enum Fetch {
    /// Exactly one row; no row is an error.
    One,
    /// Zero or one row.
    Optional,
    /// Any number of rows.
    All,
}

/// The value bound to an accessor's `$1`.
#[derive(Debug, Clone)]
pub enum BindSource {
    /// The entity's own field of this name.
    Field(String),
    /// The entity's key, as `get_id` returns it.
    OwnId,
}

/// One generated accessor method.
#[derive(Debug, Clone)]
pub struct Accessor {
    pub function: String,
    pub entity: String,
    pub sql: String,
    pub source: BindSource,
    pub fetch: Fetch,
}

/// What an accessor is, as plain sequences.
pub struct AccessorModel {
    pub function: Seq<char>,
    pub entity: Seq<char>,
    pub sql: Seq<char>,
    /// The field bound to `$1`; `None` for the entity's key.
    pub source: Option<Seq<char>>,
    pub fetch: Fetch,
}

impl View for Accessor {
    type V = AccessorModel;

    open spec fn view(&self) -> AccessorModel {
        AccessorModel {
            function: self.function@,
            entity: self.entity@,
            sql: self.sql@,
            source: match self.source {
                BindSource::Field(f) => Some(f@),
                BindSource::OwnId => None,
            },
            fetch: self.fetch,
        }
    }
}

/// The models of a sequence of accessors.
pub open spec fn models(v: Seq<Accessor>) -> Seq<AccessorModel> {
    Seq::new(v.len(), |i: int| v[i]@)
}

/// The accessor for the relation held by a field, if it holds one: the
/// target row whose key equals the field's value; optional when the relation
/// is nullable.
pub open spec fn field_accessor(f: GeormField) -> Option<AccessorModel> {
    match f.relation {
        Some(rel) => Some(
            AccessorModel {
                function: function_name_text(rel.name@),
                entity: rel.entity@,
                sql: select_where_text(rel.table@, rel.remote_id@),
                source: Some(f.ident@),
                fetch: if rel.nullable {
                    Fetch::Optional
                } else {
                    Fetch::One
                },
            },
        ),
        None => None,
    }
}

/// The accessors for the relations held by fields, in declaration order.
pub open spec fn field_accessors(fs: Seq<GeormField>) -> Seq<AccessorModel>
    decreases fs.len(),
{
    if fs.len() == 0 {
        Seq::empty()
    } else {
        match field_accessor(fs.last()) {
            Some(a) => field_accessors(fs.drop_last()).push(a),
            None => field_accessors(fs.drop_last()),
        }
    }
}

/// The accessor for a one-to-one relationship declared on the struct: the
/// remote row, if any, that refers to this entity's key.
pub open spec fn one_to_one_accessor(r: SimpleRelationship<OneToOne>) -> AccessorModel {
    AccessorModel {
        function: function_name_text(r.name@),
        entity: r.entity@,
        sql: select_where_text(r.table@, r.remote_id@),
        source: None,
        fetch: Fetch::Optional,
    }
}

/// The accessor for a one-to-many relationship: every remote row that refers
/// to this entity's key.
pub open spec fn one_to_many_accessor(r: SimpleRelationship<OneToMany>) -> AccessorModel {
    AccessorModel {
        function: function_name_text(r.name@),
        entity: r.entity@,
        sql: select_where_text(r.table@, r.remote_id@),
        source: None,
        fetch: Fetch::All,
    }
}

/// The three-way join of a many-to-many accessor.
pub open spec fn m2m_sql(
    local_table: Seq<char>,
    local_id: Seq<char>,
    link_table: Seq<char>,
    link_from: Seq<char>,
    link_to: Seq<char>,
    remote_table: Seq<char>,
    remote_id: Seq<char>,
) -> Seq<char> {
    "SELECT remote.*\nFROM "@ + local_table + " local\nJOIN "@ + link_table + " link ON link."@
        + link_from + " = local."@ + local_id + "\nJOIN "@ + remote_table
        + " remote ON link."@ + link_to + " = remote."@ + remote_id + "\nWHERE local."@
        + local_id + " = $1"@
}

/// The accessor for a many-to-many relationship of an entity whose table is
/// `table` and whose key column is `local_id`.
pub open spec fn many_to_many_accessor(
    r: M2MRelationship,
    table: Seq<char>,
    local_id: Seq<char>,
) -> AccessorModel {
    AccessorModel {
        function: function_name_text(r.name@),
        entity: r.entity@,
        sql: m2m_sql(
            table,
            local_id,
            r.link.table@,
            r.link.from@,
            r.link.to@,
            r.table@,
            r.remote_id@,
        ),
        source: None,
        fetch: Fetch::All,
    }
}

/// Every accessor of an entity with a simple key `local_id`: those of the
/// fields, then the struct's one-to-one, one-to-many and many-to-many
/// relationships, each in declaration order.
pub open spec fn all_accessors(
    attrs: GeormStructAttributes,
    fields: Seq<GeormField>,
    local_id: Seq<char>,
) -> Seq<AccessorModel> {
    field_accessors(fields) + Seq::new(
        attrs.one_to_one@.len(),
        |i: int| one_to_one_accessor(attrs.one_to_one@[i]),
    ) + Seq::new(attrs.one_to_many@.len(), |i: int| one_to_many_accessor(attrs.one_to_many@[i]))
        + Seq::new(
        attrs.many_to_many@.len(),
        |i: int| many_to_many_accessor(attrs.many_to_many@[i], attrs.table@, local_id),
    )
}

/// The warning given for relationships on an entity with a composite key.
pub open spec fn composite_warning(entity: Seq<char>) -> Seq<char> {
    "Warning: entity "@ + entity
        + ": Relationships are not supported for entities with composite primary keys yet"@
}

impl Accessor {
    /// The accessor for the relation held by `field`, if it holds one.
    pub fn from_field(field: &GeormField) -> (r: Option<Accessor>)
        ensures
            match r {
                Some(a) => field_accessor(*field) == Some(a@),
                None => field_accessor(*field) is None,
            },
    {
        match &field.relation {
            None => None,
            Some(rel) => {
                let fetch = if rel.nullable {
                    Fetch::Optional
                } else {
                    Fetch::One
                };
                Some(
                    Accessor {
                        function: function_name(rel.name.as_str()),
                        entity: rel.entity.clone(),
                        sql: select_where(rel.table.as_str(), rel.remote_id.as_str()),
                        source: BindSource::Field(field.ident.clone()),
                        fetch,
                    },
                )
            },
        }
    }

    /// The accessor for a one-to-one relationship declared on the struct.
    pub fn from_one_to_one(rel: &SimpleRelationship<OneToOne>) -> (r: Accessor)
        ensures
            r@ == one_to_one_accessor(*rel),
    {
        Accessor {
            function: rel.make_function_name(),
            entity: rel.entity.clone(),
            sql: rel.make_query(),
            source: BindSource::OwnId,
            fetch: Fetch::Optional,
        }
    }

    /// The accessor for a one-to-many relationship.
    pub fn from_one_to_many(rel: &SimpleRelationship<OneToMany>) -> (r: Accessor)
        ensures
            r@ == one_to_many_accessor(*rel),
    {
        Accessor {
            function: rel.make_function_name(),
            entity: rel.entity.clone(),
            sql: rel.make_query(),
            source: BindSource::OwnId,
            fetch: Fetch::All,
        }
    }

    /// The accessor for a many-to-many relationship with both ends resolved.
    pub fn from_many_to_many(rel: &M2MRelationshipComplete) -> (r: Accessor)
        ensures
            r@ == (AccessorModel {
                function: function_name_text(rel.name@),
                entity: rel.entity@,
                sql: m2m_sql(
                    rel.local.table@,
                    rel.local.id@,
                    rel.link.table@,
                    rel.link.from@,
                    rel.link.to@,
                    rel.remote.table@,
                    rel.remote.id@,
                ),
                source: None,
                fetch: Fetch::All,
            }),
    {
        let mut sql = String::from_str("SELECT remote.*\nFROM ");
        sql.append(rel.local.table.as_str());
        sql.append(" local\nJOIN ");
        sql.append(rel.link.table.as_str());
        sql.append(" link ON link.");
        sql.append(rel.link.from.as_str());
        sql.append(" = local.");
        sql.append(rel.local.id.as_str());
        sql.append("\nJOIN ");
        sql.append(rel.remote.table.as_str());
        sql.append(" remote ON link.");
        sql.append(rel.link.to.as_str());
        sql.append(" = remote.");
        sql.append(rel.remote.id.as_str());
        sql.append("\nWHERE local.");
        sql.append(rel.local.id.as_str());
        sql.append(" = $1");
        Accessor {
            function: function_name(rel.name.as_str()),
            entity: rel.entity.clone(),
            sql,
            source: BindSource::OwnId,
            fetch: Fetch::All,
        }
    }
}

/// The accessors of an entity, or the warning that explains their absence.
#[derive(Debug, Clone)]
pub struct Relationships {
    pub accessors: Vec<Accessor>,
    pub warning: Option<String>,
}

proof fn lemma_field_accessors_take(fs: Seq<GeormField>, i: int)
    requires
        0 <= i < fs.len(),
    ensures
        field_accessors(fs.take(i + 1)) == match field_accessor(fs[i]) {
            Some(a) => field_accessors(fs.take(i)).push(a),
            None => field_accessors(fs.take(i)),
        },
{
    assert(fs.take(i + 1).drop_last() =~= fs.take(i));
}

/// Appends the accessors of the relations held by `fields`.
fn push_field_accessors(out: &mut Vec<Accessor>, fields: &Vec<GeormField>)
    ensures
        models(final(out)@) == models(old(out)@) + field_accessors(fields@),
{
    let ghost start = models(out@);
    let mut i: usize = 0;
    while i < fields.len()
        invariant
            i <= fields.len(),
            models(out@) == start + field_accessors(fields@.take(i as int)),
        decreases fields.len() - i,
    {
        proof {
            lemma_field_accessors_take(fields@, i as int);
        }
        let ghost prev = out@;
        match Accessor::from_field(&fields[i]) {
            Some(a) => {
                out.push(a);
                assert(models(out@) =~= models(prev).push(out@.last()@));
                assert(models(out@) =~= start + field_accessors(fields@.take(i + 1)));
            },
            None => {
                assert(models(out@) =~= start + field_accessors(fields@.take(i + 1)));
            },
        }
        i = i + 1;
    }
    assert(fields@.take(fields.len() as int) =~= fields@);
}

/// The accessors of an entity: none, with a warning, when its key is
/// composite; otherwise one for each relation of its fields and each
/// relationship of its struct-level block.
pub fn derive_relationships(
    struct_name: &str,
    struct_attrs: &GeormStructAttributes,
    fields: &Vec<GeormField>,
    id: &IdType,
) -> (r: Relationships)
    ensures
        match id {
            IdType::Composite { .. } => {
                &&& r.accessors@.len() == 0
                &&& r.warning matches Some(w) && w@ == composite_warning(struct_name@)
            },
            IdType::Simple { field_name, .. } => {
                &&& r.warning is None
                &&& models(r.accessors@) == all_accessors(*struct_attrs, fields@, field_name@)
            },
        },
{
    let local_id = match id {
        IdType::Simple { field_name, .. } => field_name,
        IdType::Composite { .. } => {
            let mut w = String::from_str("Warning: entity ");
            w.append(struct_name);
            w.append(
                ": Relationships are not supported for entities with composite primary keys yet",
            );
            return Relationships { accessors: Vec::new(), warning: Some(w) };
        },
    };
    let mut accessors: Vec<Accessor> = Vec::new();
    push_field_accessors(&mut accessors, fields);
    let ghost after_fields = models(accessors@);

    let o2o = &struct_attrs.one_to_one;
    let mut i: usize = 0;
    while i < o2o.len()
        invariant
            i <= o2o.len(),
            models(accessors@) == after_fields + Seq::new(
                i as nat,
                |j: int| one_to_one_accessor(o2o@[j]),
            ),
        decreases o2o.len() - i,
    {
        let ghost prev = models(accessors@);
        accessors.push(Accessor::from_one_to_one(&o2o[i]));
        assert(models(accessors@) =~= prev.push(one_to_one_accessor(o2o@[i as int])));
        assert(models(accessors@) =~= after_fields + Seq::new(
            (i + 1) as nat,
            |j: int| one_to_one_accessor(o2o@[j]),
        ));
        i = i + 1;
    }
    let ghost after_o2o = models(accessors@);

    let o2m = &struct_attrs.one_to_many;
    let mut i: usize = 0;
    while i < o2m.len()
        invariant
            i <= o2m.len(),
            models(accessors@) == after_o2o + Seq::new(
                i as nat,
                |j: int| one_to_many_accessor(o2m@[j]),
            ),
        decreases o2m.len() - i,
    {
        let ghost prev = models(accessors@);
        accessors.push(Accessor::from_one_to_many(&o2m[i]));
        assert(models(accessors@) =~= prev.push(one_to_many_accessor(o2m@[i as int])));
        assert(models(accessors@) =~= after_o2o + Seq::new(
            (i + 1) as nat,
            |j: int| one_to_many_accessor(o2m@[j]),
        ));
        i = i + 1;
    }
    let ghost after_o2m = models(accessors@);

    let m2m = &struct_attrs.many_to_many;
    let mut i: usize = 0;
    while i < m2m.len()
        invariant
            i <= m2m.len(),
            models(accessors@) == after_o2m + Seq::new(
                i as nat,
                |j: int| many_to_many_accessor(m2m@[j], struct_attrs.table@, local_id@),
            ),
        decreases m2m.len() - i,
    {
        let ghost prev = models(accessors@);
        let complete = M2MRelationshipComplete::new(&m2m[i], &struct_attrs.table, local_id.clone());
        accessors.push(Accessor::from_many_to_many(&complete));
        assert(models(accessors@) =~= prev.push(
            many_to_many_accessor(m2m@[i as int], struct_attrs.table@, local_id@),
        ));
        assert(models(accessors@) =~= after_o2m + Seq::new(
            (i + 1) as nat,
            |j: int| many_to_many_accessor(m2m@[j], struct_attrs.table@, local_id@),
        ));
        i = i + 1;
    }
    assert(models(accessors@) =~= all_accessors(*struct_attrs, fields@, local_id@));
    Relationships { accessors, warning: None }
}

/// The rows that `WHERE <column> = $1` selects with `$1` bound to `arg`.
pub open spec fn select_eq<V>(rows: Seq<Row<V>>, column: Seq<char>, arg: Option<V>) -> Seq<Row<V>> {
    rows.filter(|r: Row<V>| sql_eq(r[column], arg))
}

/// What an accessor returns for the rows its statement selected.
pub enum Outcome<R> {
    /// The one row asked for.
    Row(R),
    /// Zero or one row.
    MaybeRow(Option<R>),
    /// Every selected row.
    Rows(Seq<R>),
    /// No row where exactly one was required: an error.
    NotFound,
}

/// The result of fetching `rows` in the manner `fetch`.
pub open spec fn fetch_outcome<R>(fetch: Fetch, rows: Seq<R>) -> Outcome<R> {
    match fetch {
        Fetch::One => if rows.len() == 0 {
            Outcome::NotFound
        } else {
            Outcome::Row(rows[0])
        },
        Fetch::Optional => Outcome::MaybeRow(
            if rows.len() == 0 {
                None
            } else {
                Some(rows[0])
            },
        ),
        Fetch::All => Outcome::Rows(rows),
    }
}

/// Nullable one-to-one semantics. The accessor of a relation held by a field
/// binds that field. When the relation is nullable and the field is NULL, it
/// returns no row, without error. When the relation is not nullable and no
/// target row has the field's value as its key, it returns an error; when one
/// has, it returns such a row.
pub proof fn nullable_relation_semantics<V>(
    field: GeormField,
    fk: Option<V>,
    targets: Seq<Row<V>>,
)
    requires
        field.relation is Some,
    ensures
        ({
            let a = field_accessor(field)->0;
            let rel = field.relation->0;
            let selected = select_eq(targets, rel.remote_id@, fk);
            let outcome = fetch_outcome(a.fetch, selected);
            &&& field_accessor(field) is Some
            &&& a.source == Some(field.ident@)
            &&& a.sql == select_where_text(rel.table@, rel.remote_id@)
            &&& (rel.nullable && fk is None ==> outcome == Outcome::<Row<V>>::MaybeRow(None))
            &&& (!rel.nullable && (forall|i: int|
                0 <= i < targets.len() ==> !sql_eq(#[trigger] targets[i][rel.remote_id@], fk))
                ==> outcome == Outcome::<Row<V>>::NotFound)
            &&& (!rel.nullable && selected.len() > 0 ==> outcome == Outcome::Row(selected[0])
                && selected[0][rel.remote_id@] == fk && targets.contains(selected[0]))
        }),
{
    broadcast use vstd::seq_lib::group_filter_ensures;

    let rel = field.relation->0;
    let pred = |r: Row<V>| sql_eq(r[rel.remote_id@], fk);
    let selected = targets.filter(pred);
    if selected.len() > 0 {
        assert(pred(selected[0]));
        assert(selected.contains(selected[0]));
        targets.lemma_filter_contains_rev(pred, selected[0]);
        assert(targets.contains(selected[0]));
    }
}

/// Whether the many-to-many accessor resolved as `c`, with `$1` bound to
/// `key`, selects `remote`: a link row joins a local row with that key to it.
pub open spec fn m2m_selects<V>(
    c: M2MRelationshipComplete,
    locals: Seq<Row<V>>,
    links: Seq<Row<V>>,
    remote: Row<V>,
    key: Option<V>,
) -> bool {
    exists|a: int, l: int|
        0 <= a < locals.len() && 0 <= l < links.len() && #[trigger] sql_eq(
            links[l][c.link.from@],
            locals[a][c.local.id@],
        ) && sql_eq(links[l][c.link.to@], remote[c.remote.id@]) && #[trigger] sql_eq(
            locals[a][c.local.id@],
            key,
        )
}

/// The rows that the many-to-many accessor resolved as `c` returns.
pub open spec fn m2m_result<V>(
    c: M2MRelationshipComplete,
    locals: Seq<Row<V>>,
    links: Seq<Row<V>>,
    remotes: Seq<Row<V>>,
    key: Option<V>,
) -> Seq<Row<V>> {
    remotes.filter(|b: Row<V>| m2m_selects(c, locals, links, b, key))
}

/// Whether `c2` is `c1` seen from its other end: the same link table with its
/// columns swapped, and the two entity tables and key columns exchanged.
pub open spec fn mirrors(c1: M2MRelationshipComplete, c2: M2MRelationshipComplete) -> bool {
    &&& c1.link.table@ == c2.link.table@
    &&& c1.link.from@ == c2.link.to@
    &&& c1.link.to@ == c2.link.from@
    &&& c1.local.table@ == c2.remote.table@
    &&& c1.local.id@ == c2.remote.id@
    &&& c1.remote.table@ == c2.local.table@
    &&& c1.remote.id@ == c2.local.id@
}

/// Many-to-many symmetry. For two relationships that are each other's mirror
/// over the same link rows, `b` is among the rows that `a`'s accessor returns
/// exactly when `a` is among the rows that `b`'s accessor returns.
pub proof fn many_to_many_symmetry<V>(
    c1: M2MRelationshipComplete,
    c2: M2MRelationshipComplete,
    rows_a: Seq<Row<V>>,
    links: Seq<Row<V>>,
    rows_b: Seq<Row<V>>,
    a: Row<V>,
    b: Row<V>,
)
    requires
        mirrors(c1, c2),
        rows_a.contains(a),
        rows_b.contains(b),
    ensures
        m2m_result(c1, rows_a, links, rows_b, a[c1.local.id@]).contains(b) <==> m2m_result(
            c2,
            rows_b,
            links,
            rows_a,
            b[c2.local.id@],
        ).contains(a),
{
    broadcast use vstd::seq_lib::group_filter_ensures;

    let selects_b = |r: Row<V>| m2m_selects(c1, rows_a, links, r, a[c1.local.id@]);
    let selects_a = |r: Row<V>| m2m_selects(c2, rows_b, links, r, b[c2.local.id@]);
    let ia = choose|i: int| 0 <= i < rows_a.len() && rows_a[i] == a;
    let ib = choose|i: int| 0 <= i < rows_b.len() && rows_b[i] == b;
    if m2m_result(c1, rows_a, links, rows_b, a[c1.local.id@]).contains(b) {
        let k = choose|k: int|
            0 <= k < rows_b.filter(selects_b).len() && rows_b.filter(selects_b)[k] == b;
        assert(selects_b(rows_b.filter(selects_b)[k]));
        let (x, l) = choose|x: int, l: int|
            0 <= x < rows_a.len() && 0 <= l < links.len() && #[trigger] sql_eq(
                links[l][c1.link.from@],
                rows_a[x][c1.local.id@],
            ) && sql_eq(links[l][c1.link.to@], b[c1.remote.id@]) && #[trigger] sql_eq(
                rows_a[x][c1.local.id@],
                a[c1.local.id@],
            );
        assert(sql_eq(links[l][c2.link.from@], rows_b[ib][c2.local.id@]));
        assert(sql_eq(rows_b[ib][c2.local.id@], b[c2.local.id@]));
        assert(selects_a(a));
        assert(selects_a(rows_a[ia]));
    }
    if m2m_result(c2, rows_b, links, rows_a, b[c2.local.id@]).contains(a) {
        let k = choose|k: int|
            0 <= k < rows_a.filter(selects_a).len() && rows_a.filter(selects_a)[k] == a;
        assert(selects_a(rows_a.filter(selects_a)[k]));
        let (x, l) = choose|x: int, l: int|
            0 <= x < rows_b.len() && 0 <= l < links.len() && #[trigger] sql_eq(
                links[l][c2.link.from@],
                rows_b[x][c2.local.id@],
            ) && sql_eq(links[l][c2.link.to@], a[c2.remote.id@]) && #[trigger] sql_eq(
                rows_b[x][c2.local.id@],
                b[c2.local.id@],
            );
        assert(sql_eq(links[l][c1.link.from@], rows_a[ia][c1.local.id@]));
        assert(sql_eq(rows_a[ia][c1.local.id@], a[c1.local.id@]));
        assert(selects_b(b));
        assert(selects_b(rows_b[ib]));
    }
}

} // verus!

//! The schema model that the generator works on: one entity's table, its
//! fields and its declared relationships, as plain values.
use vstd::prelude::*;

verus! {

/// A Rust type as it was written on a field: its source text, and the idents
/// of its path when it is a path type (empty otherwise).
#[derive(Debug, Clone)]
pub struct TypeRef {
    pub tokens: String,
    pub path: Vec<String>,
}

impl View for TypeRef {
    type V = (Seq<char>, Seq<String>);

    open spec fn view(&self) -> (Seq<char>, Seq<String>) {
        (self.tokens@, self.path@)
    }
}

impl TypeRef {
    /// A copy of this type reference.
    pub fn copy(&self) -> (r: TypeRef)
        ensures
            r@ == self@,
    {
        let mut path: Vec<String> = Vec::new();
        let mut i: usize = 0;
        while i < self.path.len()
            invariant
                i <= self.path.len(),
                path@ == self.path@.take(i as int),
            decreases self.path.len() - i,
        {
            path.push(self.path[i].clone());
            assert(path@ =~= self.path@.take(i + 1));
            i = i + 1;
        }
        assert(path@ =~= self.path@);
        TypeRef { tokens: self.tokens.clone(), path }
    }
}

/// Whether a type is written as `Option<..>`: a path whose last segment is `Option`.
pub open spec fn is_option(ty: TypeRef) -> bool {
    ty.path@.len() > 0 && ty.path@.last()@ == "Option"@
}

/// A declaration that the generator refuses.
#[derive(Debug, Clone)]
pub enum DeclarationError {
    /// The struct-level block names no table.
    MissingTable,
    /// No field is marked as identifier.
    NoIdentifier { entity: String },
    /// A field of type `Option<..>` is marked defaultable.
    DefaultableOption { field: String },
}

/// A one-to-one relation held by a field: the field stores the key of a row
/// of `table`.
#[derive(Debug, Clone)]
pub struct O2ORelationship {
    pub entity: String,
    pub table: String,
    pub remote_id: String,
    pub nullable: bool,
    pub name: String,
}

/// The markers a field may carry.
#[derive(Debug, Clone)]
pub struct GeormFieldAttributes {
    pub id: bool,
    pub relation: Option<O2ORelationship>,
    pub defaultable: bool,
}

/// One persisted field of an entity.
#[derive(Debug, Clone)]
pub struct GeormField {
    pub ident: String,
    pub vis: String,
    pub ty: TypeRef,
    pub id: bool,
    pub relation: Option<O2ORelationship>,
    pub defaultable: bool,
}

impl GeormField {
    /// A field from its name, visibility, type and markers. A defaultable
    /// field whose type is already optional is refused.
    pub fn new(ident: String, vis: String, ty: TypeRef, attrs: GeormFieldAttributes) -> (r: Result<
        GeormField,
        DeclarationError,
    >)
        ensures
            (attrs.defaultable && is_option(ty)) <==> r is Err,
            r matches Err(e) ==> e matches DeclarationError::DefaultableOption { field } && field@
                == ident@,
            r matches Ok(f) ==> {
                &&& f.ident@ == ident@
                &&& f.vis@ == vis@
                &&& f.ty@ == ty@
                &&& f.id == attrs.id
                &&& f.relation == attrs.relation
                &&& f.defaultable == attrs.defaultable
            },
    {
        if attrs.defaultable && Self::is_option_type(&ty) {
            return Err(DeclarationError::DefaultableOption { field: ident });
        }
        Ok(GeormField {
            ident,
            vis,
            ty,
            id: attrs.id,
            relation: attrs.relation,
            defaultable: attrs.defaultable,
        })
    }

    /// Whether `ty` is written as `Option<..>`.
    pub fn is_option_type(ty: &TypeRef) -> (r: bool)
        ensures
            r == is_option(*ty),
    {
        let n = ty.path.len();
        if n == 0 {
            false
        } else {
            let option = String::from_str("Option");
            ty.path[n - 1] == option
        }
    }
}

/// Marks the shape of a relationship declared on the struct.
pub trait SimpleRelationshipType {

}

/// Zero or one remote row refers to this entity.
#[derive(Debug, Clone, Copy, Default)]
pub struct OneToOne;

impl SimpleRelationshipType for OneToOne {

}

/// Any number of remote rows refer to this entity.
#[derive(Debug, Clone, Copy, Default)]
pub struct OneToMany;

impl SimpleRelationshipType for OneToMany {

}

/// A relationship declared on the struct: rows of `table` whose column
/// `remote_id` holds this entity's key.
#[derive(Debug, Clone)]
pub struct SimpleRelationship<T: SimpleRelationshipType> {
    pub name: String,
    pub remote_id: String,
    pub table: String,
    pub entity: String,
    pub kind: T,
}

/// The one-to-many relationships of an entity.
pub type O2MRelationship = SimpleRelationship<OneToMany>;

/// `SELECT * FROM <table> WHERE <column> = $1`.
pub open spec fn select_where_text(table: Seq<char>, column: Seq<char>) -> Seq<char> {
    "SELECT * FROM "@ + table + " WHERE "@ + column + " = $1"@
}

/// The accessor name for a relationship: `get_<name>`.
pub open spec fn function_name_text(name: Seq<char>) -> Seq<char> {
    "get_"@ + name
}

/// Builds `SELECT * FROM <table> WHERE <column> = $1`.
pub fn select_where(table: &str, column: &str) -> (r: String)
    ensures
        r@ == select_where_text(table@, column@),
{
    let mut s = String::from_str("SELECT * FROM ");
    s.append(table);
    s.append(" WHERE ");
    s.append(column);
    s.append(" = $1");
    s
}

/// Builds `get_<name>`.
pub fn function_name(name: &str) -> (r: String)
    ensures
        r@ == function_name_text(name@),
{
    let mut s = String::from_str("get_");
    s.append(name);
    s
}

impl<T: SimpleRelationshipType> SimpleRelationship<T> {
    /// The query of the accessor: remote rows whose `remote_id` equals this entity's key.
    pub fn make_query(&self) -> (r: String)
        ensures
            r@ == select_where_text(self.table@, self.remote_id@),
    {
        select_where(self.table.as_str(), self.remote_id.as_str())
    }

    /// The accessor's name, `get_<name>`.
    pub fn make_function_name(&self) -> (r: String)
        ensures
            r@ == function_name_text(self.name@),
    {
        function_name(self.name.as_str())
    }
}

/// The link table of a many-to-many relationship and its two foreign-key
/// columns: `from` refers to this entity, `to` to the remote one.
#[derive(Debug, Clone)]
pub struct M2MLink {
    pub table: String,
    pub from: String,
    pub to: String,
}

/// A many-to-many relationship as declared on the struct.
#[derive(Debug, Clone)]
pub struct M2MRelationship {
    pub name: String,
    pub entity: String,
    pub table: String,
    pub remote_id: String,
    pub link: M2MLink,
}

/// A table and its key column.
#[derive(Debug, Clone)]
pub struct Identifier {
    pub table: String,
    pub id: String,
}

/// A many-to-many relationship with both ends resolved.
#[derive(Debug, Clone)]
pub struct M2MRelationshipComplete {
    pub name: String,
    pub entity: String,
    pub local: Identifier,
    pub remote: Identifier,
    pub link: M2MLink,
}

impl M2MRelationshipComplete {
    /// Resolves `other` against the local table and key column.
    pub fn new(other: &M2MRelationship, local_table: &String, local_id: String) -> (r: Self)
        ensures
            r.name@ == other.name@,
            r.entity@ == other.entity@,
            r.local.table@ == local_table@,
            r.local.id@ == local_id@,
            r.remote.table@ == other.table@,
            r.remote.id@ == other.remote_id@,
            r.link.table@ == other.link.table@,
            r.link.from@ == other.link.from@,
            r.link.to@ == other.link.to@,
    {
        M2MRelationshipComplete {
            name: other.name.clone(),
            entity: other.entity.clone(),
            link: M2MLink {
                table: other.link.table.clone(),
                from: other.link.from.clone(),
                to: other.link.to.clone(),
            },
            local: Identifier { table: local_table.clone(), id: local_id },
            remote: Identifier { table: other.table.clone(), id: other.remote_id.clone() },
        }
    }
}

/// The struct-level block: the table and the relationships declared there.
#[derive(Debug, Clone)]
pub struct GeormStructAttributes {
    pub table: String,
    pub one_to_one: Vec<SimpleRelationship<OneToOne>>,
    pub one_to_many: Vec<SimpleRelationship<OneToMany>>,
    pub many_to_many: Vec<M2MRelationship>,
}

impl GeormStructAttributes {
    /// The block from its parts; a block without a table is refused.
    pub fn new(
        table: Option<String>,
        one_to_one: Vec<SimpleRelationship<OneToOne>>,
        one_to_many: Vec<SimpleRelationship<OneToMany>>,
        many_to_many: Vec<M2MRelationship>,
    ) -> (r: Result<Self, DeclarationError>)
        ensures
            table is None <==> r is Err,
            r matches Err(e) ==> e is MissingTable,
            r matches Ok(a) ==> {
                &&& a.table@ == table->0@
                &&& a.one_to_one@ == one_to_one@
                &&& a.one_to_many@ == one_to_many@
                &&& a.many_to_many@ == many_to_many@
            },
    {
        match table {
            None => Err(DeclarationError::MissingTable),
            Some(table) => Ok(GeormStructAttributes { table, one_to_one, one_to_many, many_to_many }),
        }
    }
}

} // verus!

use vstd::prelude::*;

verus! {

/// An immutable identity for a query target: the object-store path that a
/// table reference was bound to during planning.
///
/// Equality is structural, by the path value alone; rendering returns
/// exactly the path. The type is a pure value: once constructed it offers
/// no mutation.
#[derive(Debug, Clone)]
pub struct ResolvedTable {
    // path
    table: String,
}

impl View for ResolvedTable {
    type V = Seq<char>;

    closed spec fn view(&self) -> Seq<char> {
        self.table@
    }
}

impl ResolvedTable {
    /// Binds a table reference to a concrete storage path. No validation
    /// happens here: deciding which paths are admissible is the resolver's
    /// responsibility before construction.
    pub fn new(table: String) -> (r: Self)
        ensures
            r@ == table@,
    {
        ResolvedTable { table }
    }

    /// The storage path this table was resolved to.
    pub fn table(&self) -> (r: &str)
        ensures
            r@ == self@,
    {
        self.table.as_str()
    }

    /// Renders the identity: exactly the path string, nothing else.
    pub fn display_string(&self) -> (r: String)
        ensures
            r@ == self@,
    {
        self.table.clone()
    }
}

impl PartialEq for ResolvedTable {
    fn eq(&self, other: &Self) -> bool {
        self.table == other.table
    }
}

impl Eq for ResolvedTable {
}

impl vstd::std_specs::cmp::PartialEqSpecImpl for ResolvedTable {
    open spec fn obeys_eq_spec() -> bool {
        true
    }

    open spec fn eq_spec(&self, other: &Self) -> bool {
        self@ == other@
    }
}

/// Law: table identity is structural over the resolved path. Two tables
/// compare equal exactly when the paths they were constructed from have
/// equal contents.
pub proof fn lemma_resolved_table_identity(a: ResolvedTable, b: ResolvedTable)
    ensures
        vstd::std_specs::cmp::PartialEqSpec::eq_spec(&a, &b) <==> a@ == b@,
{
}

} // verus!

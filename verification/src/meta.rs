//! The synthetic relational catalog.
//!
//! A metadata context is built once from a list of logical data-source
//! entities ("cubes") and their columns. Each cube receives three distinct
//! object identifiers (table, record, array handler) and each column one,
//! assigned from a single counter that starts at a reserved base above all
//! real system-catalog identifiers, in input order: for each cube the three
//! table identifiers, then its columns. The context is immutable after
//! construction; lookups return `None` for absent values, which is a normal
//! outcome for catalog probes.
use vstd::prelude::*;

verus! {

/// The first object identifier handed out; chosen above every real
/// system-table identifier.
pub const OID_BASE: u32 = 18000;

#[derive(Clone, Copy, PartialEq, Eq, Structural, Debug)]
pub enum ColumnType {
    String,
    Int64,
    Boolean,
    Double,
    Timestamp,
}

/// A column of a cube, as the metadata service reports it.
pub struct CubeColumn {
    pub name: String,
    pub column_type: ColumnType,
    pub can_be_null: bool,
}

/// A logical data-source entity reported by the metadata service.
pub struct CubeMeta {
    pub name: String,
    pub columns: Vec<CubeColumn>,
}

pub struct CubeMetaColumn {
    pub oid: u32,
    pub name: String,
    pub column_type: ColumnType,
    pub can_be_null: bool,
}

pub struct CubeMetaTable {
    pub oid: u32,
    pub record_oid: u32,
    pub array_handler_oid: u32,
    pub name: String,
    pub columns: Vec<CubeMetaColumn>,
}

pub struct MetaContext {
    pub cubes: Vec<CubeMeta>,
    pub tables: Vec<CubeMetaTable>,
}

impl Clone for CubeColumn {
    fn clone(&self) -> (r: Self)
        ensures
            r == *self,
    {
        CubeColumn {
            name: self.name.clone(),
            column_type: self.column_type,
            can_be_null: self.can_be_null,
        }
    }
}

impl Clone for CubeMetaColumn {
    fn clone(&self) -> (r: Self)
        ensures
            r == *self,
    {
        CubeMetaColumn {
            oid: self.oid,
            name: self.name.clone(),
            column_type: self.column_type,
            can_be_null: self.can_be_null,
        }
    }
}

impl Clone for CubeMeta {
    fn clone(&self) -> (r: Self)
        ensures
            r.name == self.name,
            r.columns@ == self.columns@,
    {
        let mut columns: Vec<CubeColumn> = Vec::new();
        let n = self.columns.len();
        for i in 0..n
            invariant
                n == self.columns@.len(),
                columns@.len() == i,
                forall|j: int| 0 <= j < i ==> columns@[j] == self.columns@[j],
        {
            columns.push(self.columns[i].clone());
        }
        proof {
            assert(columns@ =~= self.columns@);
        }
        CubeMeta { name: self.name.clone(), columns }
    }
}

impl Clone for CubeMetaTable {
    fn clone(&self) -> (r: Self)
        ensures
            r.oid == self.oid,
            r.record_oid == self.record_oid,
            r.array_handler_oid == self.array_handler_oid,
            r.name == self.name,
            r.columns@ == self.columns@,
    {
        let mut columns: Vec<CubeMetaColumn> = Vec::new();
        let n = self.columns.len();
        for i in 0..n
            invariant
                n == self.columns@.len(),
                columns@.len() == i,
                forall|j: int| 0 <= j < i ==> columns@[j] == self.columns@[j],
        {
            columns.push(self.columns[i].clone());
        }
        proof {
            assert(columns@ =~= self.columns@);
        }
        CubeMetaTable {
            oid: self.oid,
            record_oid: self.record_oid,
            array_handler_oid: self.array_handler_oid,
            name: self.name.clone(),
            columns,
        }
    }
}

/// How many identifiers one cube consumes: three for the table plus one per
/// column.
pub open spec fn cube_oid_span(c: CubeMeta) -> int {
    3 + c.columns@.len() as int
}

/// How many identifiers a cube list consumes in total.
pub open spec fn total_span(cubes: Seq<CubeMeta>) -> int
    decreases cubes.len(),
{
    if cubes.len() == 0 {
        0
    } else {
        total_span(cubes.drop_last()) + cube_oid_span(cubes.last())
    }
}

pub open spec fn sum_columns(cubes: Seq<CubeMeta>) -> int
    decreases cubes.len(),
{
    if cubes.len() == 0 {
        0
    } else {
        sum_columns(cubes.drop_last()) + cubes.last().columns@.len()
    }
}

/// The first identifier assigned to cube `i`.
pub open spec fn table_base(cubes: Seq<CubeMeta>, i: int) -> int {
    OID_BASE + total_span(cubes.take(i))
}

/// The `a`-th identifier assigned to cube `i`: offset 0 is the table
/// identifier, 1 the record identifier, 2 the array-handler identifier, and
/// 3 + j the identifier of column `j`.
pub open spec fn assigned_oid(cubes: Seq<CubeMeta>, i: int, a: int) -> int {
    table_base(cubes, i) + a
}

pub open spec fn column_built_from(tc: CubeMetaColumn, c: CubeColumn, oid: int) -> bool {
    &&& tc.oid == oid
    &&& tc.name@ == c.name@
    &&& tc.column_type == c.column_type
    &&& tc.can_be_null == c.can_be_null
}

pub open spec fn table_built_from(t: CubeMetaTable, c: CubeMeta, base: int) -> bool {
    &&& t.oid == base
    &&& t.record_oid == base + 1
    &&& t.array_handler_oid == base + 2
    &&& t.name@ == c.name@
    &&& t.columns@.len() == c.columns@.len()
    &&& forall|j: int|
        0 <= j < c.columns@.len() ==> column_built_from(
            #[trigger] t.columns@[j],
            c.columns@[j],
            base + 3 + j,
        )
}

/// The catalog invariant: every table is derived from its cube, with its
/// identifiers at the documented offsets from its base.
pub open spec fn tables_built(ctx: MetaContext) -> bool {
    &&& ctx.tables@.len() == ctx.cubes@.len()
    &&& forall|i: int|
        0 <= i < ctx.cubes@.len() ==> table_built_from(
            #[trigger] ctx.tables@[i],
            ctx.cubes@[i],
            table_base(ctx.cubes@, i),
        )
}

proof fn lemma_total_span_step(cubes: Seq<CubeMeta>, i: int)
    requires
        0 <= i < cubes.len(),
    ensures
        total_span(cubes.take(i + 1)) == total_span(cubes.take(i)) + cube_oid_span(cubes[i]),
{
    assert(cubes.take(i + 1).drop_last() =~= cubes.take(i));
    assert(cubes.take(i + 1).last() == cubes[i]);
}

proof fn lemma_total_span_mono(cubes: Seq<CubeMeta>, i: int, j: int)
    requires
        0 <= i <= j <= cubes.len(),
    ensures
        total_span(cubes.take(i)) <= total_span(cubes.take(j)),
    decreases j - i,
{
    if i < j {
        lemma_total_span_mono(cubes, i, j - 1);
        lemma_total_span_step(cubes, j - 1);
    }
}

proof fn lemma_total_span_counts(cubes: Seq<CubeMeta>)
    ensures
        total_span(cubes) == 3 * cubes.len() + sum_columns(cubes),
        sum_columns(cubes) >= 0,
    decreases cubes.len(),
{
    if cubes.len() > 0 {
        lemma_total_span_counts(cubes.drop_last());
    }
}

impl MetaContext {
    /// Builds the catalog from the cube list: a pure function of its input,
    /// with no external side effects.
    pub fn new(cubes: Vec<CubeMeta>) -> (ctx: MetaContext)
        requires
            OID_BASE + total_span(cubes@) <= u32::MAX,
        ensures
            ctx.cubes == cubes,
            tables_built(ctx),
    {
        let n = cubes.len();
        let mut tables: Vec<CubeMetaTable> = Vec::new();
        let mut oid: u32 = OID_BASE;
        for i in 0..n
            invariant
                n == cubes@.len(),
                tables@.len() == i,
                oid == table_base(cubes@, i as int),
                OID_BASE + total_span(cubes@) <= u32::MAX,
                forall|t: int|
                    0 <= t < i ==> table_built_from(
                        #[trigger] tables@[t],
                        cubes@[t],
                        table_base(cubes@, t),
                    ),
        {
            proof {
                lemma_total_span_step(cubes@, i as int);
                lemma_total_span_mono(cubes@, i as int + 1, n as int);
                assert(cubes@.take(n as int) =~= cubes@);
            }
            let cube = &cubes[i];
            let t_oid = oid;
            let m = cube.columns.len();
            let mut cols: Vec<CubeMetaColumn> = Vec::new();
            let mut col_oid = oid + 3;
            for j in 0..m
                invariant
                    m == cube.columns@.len(),
                    cols@.len() == j,
                    col_oid == t_oid + 3 + j,
                    t_oid + 3 + m <= u32::MAX,
                    forall|q: int|
                        0 <= q < j ==> column_built_from(
                            #[trigger] cols@[q],
                            cube.columns@[q],
                            t_oid + 3 + q,
                        ),
            {
                let c = &cube.columns[j];
                cols.push(
                    CubeMetaColumn {
                        oid: col_oid,
                        name: c.name.clone(),
                        column_type: c.column_type,
                        can_be_null: c.can_be_null,
                    },
                );
                col_oid = col_oid + 1;
            }
            tables.push(
                CubeMetaTable {
                    oid: t_oid,
                    record_oid: t_oid + 1,
                    array_handler_oid: t_oid + 2,
                    name: cube.name.clone(),
                    columns: cols,
                },
            );
            oid = col_oid;
        }
        MetaContext { cubes, tables }
    }

    /// Linear probe by table identifier; `None` when no table has it.
    pub fn find_cube_table_with_oid(&self, oid: u32) -> (r: Option<CubeMetaTable>)
        ensures
            match r {
                Some(t) => {
                    &&& spec_find_table_by_oid(self.tables@, oid) matches Some(t0)
                        && table_equiv(t, t0)
                },
                None => spec_find_table_by_oid(self.tables@, oid) is None,
            },
    {
        let n = self.tables.len();
        proof {
            assert(self.tables@.skip(0) =~= self.tables@);
        }
        for i in 0..n
            invariant
                n == self.tables@.len(),
                spec_find_table_by_oid(self.tables@.skip(i as int), oid) == spec_find_table_by_oid(
                    self.tables@,
                    oid,
                ),
        {
            proof {
                assert(self.tables@.skip(i as int)[0] == self.tables@[i as int]);
                assert(self.tables@.skip(i as int).drop_first() =~= self.tables@.skip(i as int + 1));
            }
            let t = &self.tables[i];
            if t.oid == oid {
                return Some(t.clone());
            }
        }
        proof {
            assert(self.tables@.skip(n as int) =~= Seq::<CubeMetaTable>::empty());
        }
        None
    }

    /// Linear probe by table name; `None` when no table has it.
    pub fn find_cube_table_with_name(&self, name: String) -> (r: Option<CubeMetaTable>)
        ensures
            match r {
                Some(t) => {
                    &&& spec_find_table_by_name(self.tables@, name@) matches Some(t0)
                        && table_equiv(t, t0)
                },
                None => spec_find_table_by_name(self.tables@, name@) is None,
            },
    {
        let n = self.tables.len();
        proof {
            assert(self.tables@.skip(0) =~= self.tables@);
        }
        for i in 0..n
            invariant
                n == self.tables@.len(),
                spec_find_table_by_name(self.tables@.skip(i as int), name@)
                    == spec_find_table_by_name(self.tables@, name@),
        {
            proof {
                assert(self.tables@.skip(i as int)[0] == self.tables@[i as int]);
                assert(self.tables@.skip(i as int).drop_first() =~= self.tables@.skip(i as int + 1));
            }
            let t = &self.tables[i];
            if t.name == name {
                return Some(t.clone());
            }
        }
        proof {
            assert(self.tables@.skip(n as int) =~= Seq::<CubeMetaTable>::empty());
        }
        None
    }

    /// Linear probe over the raw cube list by name.
    pub fn find_cube_with_name(&self, name: String) -> (r: Option<CubeMeta>)
        ensures
            match r {
                Some(c) => {
                    &&& spec_find_cube_by_name(self.cubes@, name@) matches Some(c0) && cube_equiv(
                        c,
                        c0,
                    )
                },
                None => spec_find_cube_by_name(self.cubes@, name@) is None,
            },
    {
        let n = self.cubes.len();
        proof {
            assert(self.cubes@.skip(0) =~= self.cubes@);
        }
        for i in 0..n
            invariant
                n == self.cubes@.len(),
                spec_find_cube_by_name(self.cubes@.skip(i as int), name@) == spec_find_cube_by_name(
                    self.cubes@,
                    name@,
                ),
        {
            proof {
                assert(self.cubes@.skip(i as int)[0] == self.cubes@[i as int]);
                assert(self.cubes@.skip(i as int).drop_first() =~= self.cubes@.skip(i as int + 1));
            }
            let c = &self.cubes[i];
            if c.name == name {
                return Some(c.clone());
            }
        }
        proof {
            assert(self.cubes@.skip(n as int) =~= Seq::<CubeMeta>::empty());
        }
        None
    }
}

/// First table whose table identifier matches, in catalog order.
pub open spec fn spec_find_table_by_oid(tables: Seq<CubeMetaTable>, oid: u32) -> Option<
    CubeMetaTable,
>
    decreases tables.len(),
{
    if tables.len() == 0 {
        None
    } else if tables[0].oid == oid {
        Some(tables[0])
    } else {
        spec_find_table_by_oid(tables.drop_first(), oid)
    }
}

/// First table whose name matches, in catalog order.
pub open spec fn spec_find_table_by_name(tables: Seq<CubeMetaTable>, name: Seq<char>) -> Option<
    CubeMetaTable,
>
    decreases tables.len(),
{
    if tables.len() == 0 {
        None
    } else if tables[0].name@ == name {
        Some(tables[0])
    } else {
        spec_find_table_by_name(tables.drop_first(), name)
    }
}

/// First cube whose name matches, in input order.
pub open spec fn spec_find_cube_by_name(cubes: Seq<CubeMeta>, name: Seq<char>) -> Option<CubeMeta>
    decreases cubes.len(),
{
    if cubes.len() == 0 {
        None
    } else if cubes[0].name@ == name {
        Some(cubes[0])
    } else {
        spec_find_cube_by_name(cubes.drop_first(), name)
    }
}

/// Field-level equality of catalog columns.
pub open spec fn column_equiv(a: CubeMetaColumn, b: CubeMetaColumn) -> bool {
    &&& a.oid == b.oid
    &&& a.name@ == b.name@
    &&& a.column_type == b.column_type
    &&& a.can_be_null == b.can_be_null
}

/// Field-level equality of catalog tables.
pub open spec fn table_equiv(a: CubeMetaTable, b: CubeMetaTable) -> bool {
    &&& a.oid == b.oid
    &&& a.record_oid == b.record_oid
    &&& a.array_handler_oid == b.array_handler_oid
    &&& a.name@ == b.name@
    &&& a.columns@.len() == b.columns@.len()
    &&& forall|j: int|
        0 <= j < a.columns@.len() ==> column_equiv(#[trigger] a.columns@[j], b.columns@[j])
}

pub open spec fn cube_column_equiv(a: CubeColumn, b: CubeColumn) -> bool {
    &&& a.name@ == b.name@
    &&& a.column_type == b.column_type
    &&& a.can_be_null == b.can_be_null
}

pub open spec fn cube_equiv(a: CubeMeta, b: CubeMeta) -> bool {
    &&& a.name@ == b.name@
    &&& a.columns@.len() == b.columns@.len()
    &&& forall|j: int|
        0 <= j < a.columns@.len() ==> cube_column_equiv(#[trigger] a.columns@[j], b.columns@[j])
}

pub open spec fn cubes_equiv(a: Seq<CubeMeta>, b: Seq<CubeMeta>) -> bool {
    &&& a.len() == b.len()
    &&& forall|i: int| 0 <= i < a.len() ==> cube_equiv(#[trigger] a[i], b[i])
}

proof fn lemma_base_separated(cubes: Seq<CubeMeta>, i: int, j: int)
    requires
        0 <= i < j <= cubes.len(),
    ensures
        table_base(cubes, i) + cube_oid_span(cubes[i]) <= table_base(cubes, j),
{
    lemma_total_span_step(cubes, i);
    lemma_total_span_mono(cubes, i + 1, j);
}

/// Identifier assignment law: the catalog hands out `3 n + sum of column
/// counts` identifiers, the first table starts exactly at the reserved
/// base, every identifier lies in that contiguous range, and no identifier
/// is assigned twice.
pub proof fn lemma_oid_assignment(ctx: MetaContext)
    requires
        tables_built(ctx),
    ensures
        total_span(ctx.cubes@) == 3 * ctx.cubes@.len() + sum_columns(ctx.cubes@),
        ctx.tables@.len() > 0 ==> ctx.tables@[0].oid == OID_BASE,
        forall|i: int|
            0 <= i < ctx.tables@.len() ==> (#[trigger] ctx.tables@[i]).oid == table_base(
                ctx.cubes@,
                i,
            ),
        forall|i: int, a: int|
            0 <= i < ctx.cubes@.len() && 0 <= a < cube_oid_span(ctx.cubes@[i]) ==> OID_BASE <= (
            #[trigger] assigned_oid(ctx.cubes@, i, a)) < OID_BASE + total_span(ctx.cubes@),
        forall|i: int, j: int, a: int, b: int|
            0 <= i < ctx.cubes@.len() && 0 <= j < ctx.cubes@.len() && 0 <= a < cube_oid_span(
                ctx.cubes@[i],
            ) && 0 <= b < cube_oid_span(ctx.cubes@[j]) && (i != j || a != b)
                ==> #[trigger] assigned_oid(ctx.cubes@, i, a) != #[trigger] assigned_oid(
                ctx.cubes@,
                j,
                b,
            ),
{
    let cubes = ctx.cubes@;
    lemma_total_span_counts(cubes);
    assert(cubes.take(0) =~= Seq::<CubeMeta>::empty());
    assert forall|i: int, a: int|
        0 <= i < cubes.len() && 0 <= a < cube_oid_span(cubes[i]) implies OID_BASE <= (
    #[trigger] assigned_oid(cubes, i, a)) < OID_BASE + total_span(cubes) by {
        lemma_total_span_mono(cubes, 0, i);
        lemma_base_separated(cubes, i, cubes.len() as int);
        assert(cubes.take(cubes.len() as int) =~= cubes);
    }
    assert forall|i: int, j: int, a: int, b: int|
        0 <= i < cubes.len() && 0 <= j < cubes.len() && 0 <= a < cube_oid_span(cubes[i]) && 0 <= b
            < cube_oid_span(cubes[j]) && (i != j || a != b) implies #[trigger] assigned_oid(
        cubes,
        i,
        a,
    ) != #[trigger] assigned_oid(cubes, j, b) by {
        if i < j {
            lemma_base_separated(cubes, i, j);
        } else if j < i {
            lemma_base_separated(cubes, j, i);
        }
    }
}

/// Determinism law: two catalogs built from equal cube lists assign the
/// same identifiers and carry the same tables, field for field.
pub proof fn lemma_construction_deterministic(c1: MetaContext, c2: MetaContext)
    requires
        tables_built(c1),
        tables_built(c2),
        cubes_equiv(c1.cubes@, c2.cubes@),
    ensures
        c1.tables@.len() == c2.tables@.len(),
        forall|i: int|
            0 <= i < c1.tables@.len() ==> table_equiv(#[trigger] c1.tables@[i], c2.tables@[i]),
{
    assert forall|i: int| 0 <= i < c1.tables@.len() implies table_equiv(
        #[trigger] c1.tables@[i],
        c2.tables@[i],
    ) by {
        lemma_total_span_equiv(c1.cubes@.take(i), c2.cubes@.take(i));
    }
}

proof fn lemma_total_span_equiv(a: Seq<CubeMeta>, b: Seq<CubeMeta>)
    requires
        cubes_equiv(a, b),
    ensures
        total_span(a) == total_span(b),
    decreases a.len(),
{
    if a.len() > 0 {
        assert(cubes_equiv(a.drop_last(), b.drop_last()));
        lemma_total_span_equiv(a.drop_last(), b.drop_last());
    }
}

proof fn lemma_find_by_oid_first_hit(tables: Seq<CubeMetaTable>, i: int)
    requires
        0 <= i < tables.len(),
        forall|p: int| 0 <= p < i ==> (#[trigger] tables[p]).oid != tables[i].oid,
    ensures
        spec_find_table_by_oid(tables, tables[i].oid) == Some(tables[i]),
    decreases i,
{
    if i > 0 {
        assert(tables.drop_first()[i - 1] == tables[i]);
        lemma_find_by_oid_first_hit(tables.drop_first(), i - 1);
    }
}

proof fn lemma_find_by_name_first_hit(tables: Seq<CubeMetaTable>, i: int)
    requires
        0 <= i < tables.len(),
        forall|p: int| 0 <= p < i ==> (#[trigger] tables[p]).name@ != tables[i].name@,
    ensures
        spec_find_table_by_name(tables, tables[i].name@) == Some(tables[i]),
    decreases i,
{
    if i > 0 {
        assert(tables.drop_first()[i - 1] == tables[i]);
        lemma_find_by_name_first_hit(tables.drop_first(), i - 1);
    }
}

/// Lookup agreement law: for every table the construction produced, probing
/// by its identifier and probing by its name return that same table,
/// provided the cube names were distinct.
pub proof fn lemma_lookup_by_id_and_name_agree(ctx: MetaContext, i: int)
    requires
        tables_built(ctx),
        forall|p: int, q: int|
            0 <= p < q < ctx.cubes@.len() ==> (#[trigger] ctx.cubes@[p]).name@ != (
            #[trigger] ctx.cubes@[q]).name@,
        0 <= i < ctx.tables@.len(),
    ensures
        spec_find_table_by_oid(ctx.tables@, ctx.tables@[i].oid) == Some(ctx.tables@[i]),
        spec_find_table_by_name(ctx.tables@, ctx.tables@[i].name@) == Some(ctx.tables@[i]),
{
    assert forall|p: int| 0 <= p < i implies (#[trigger] ctx.tables@[p]).oid != ctx.tables@[i].oid
        by {
        lemma_base_separated(ctx.cubes@, p, i);
    }
    lemma_find_by_oid_first_hit(ctx.tables@, i);
    lemma_find_by_name_first_hit(ctx.tables@, i);
}

/// Absence law: probing by an identifier no table carries returns `None`,
/// and likewise for a name.
pub proof fn lemma_find_absent(tables: Seq<CubeMetaTable>, oid: u32, name: Seq<char>)
    ensures
        spec_find_table_by_oid(tables, oid) is None <==> (forall|p: int|
            0 <= p < tables.len() ==> (#[trigger] tables[p]).oid != oid),
        spec_find_table_by_name(tables, name) is None <==> (forall|p: int|
            0 <= p < tables.len() ==> (#[trigger] tables[p]).name@ != name),
    decreases tables.len(),
{
    if tables.len() > 0 {
        lemma_find_absent(tables.drop_first(), oid, name);
        assert forall|p: int| 1 <= p < tables.len() implies tables.drop_first()[p - 1] == tables[p]
            by {}
    }
}

} // verus!

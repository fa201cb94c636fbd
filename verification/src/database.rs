//! Introspected schema data — tables and their columns as the metadata
//! store reports them — together with the table selector and the final
//! assembly of the generated source text.

use vstd::prelude::*;
use vstd::string::*;
use crate::config::Config;
use crate::fmts::{first_bad, record_code, table_cfg, table_flags, GenError};
use crate::text::{join_sep, join_strings, str_eq, views_of};

verus! {

/// Namespace for the generation entry points.
pub struct Database;

/// One introspected table: schema, name and comment.
#[derive(Debug)]
pub struct Table {
    pub schema: String,
    pub name: String,
    pub comment: String,
}

impl Clone for Table {
    fn clone(&self) -> (r: Self)
        ensures
            r == *self,
    {
        Table { schema: self.schema.clone(), name: self.name.clone(), comment: self.comment.clone() }
    }
}

/// One introspected column, as the column metadata relation reports it.
/// Only the name, type descriptor, nullability and comment drive
/// generation; the remaining fields are captured but unused.
#[derive(Debug)]
pub struct Columns {
    pub column_name: String,
    pub ordinal_position: u64,
    pub column_default: Option<String>,
    pub is_nullable: String,
    pub data_type: String,
    pub character_maximum_length: Option<u64>,
    pub character_octet_length: Option<u64>,
    pub numeric_precision: Option<u64>,
    pub numeric_scale: Option<u64>,
    pub datetime_precision: Option<u64>,
    pub character_set_name: Option<String>,
    pub collation_name: Option<String>,
    pub column_type: String,
    pub column_key: String,
    pub extra: String,
    pub privileges: String,
    pub column_comment: String,
}

/// One selected table together with its columns, in ordinal order.
#[derive(Debug)]
pub struct TableSchema {
    pub table: Table,
    pub columns: Vec<Columns>,
}

/// The first table whose characters equal `name`, if any.
pub open spec fn find_table(tables: Seq<Table>, name: Seq<char>) -> Option<Table>
    decreases tables.len(),
{
    if tables.len() == 0 {
        None
    } else if tables[0].name@ == name {
        Some(tables[0])
    } else {
        find_table(tables.drop_first(), name)
    }
}

/// The tables named by `names`, in that list's order; a name matching no
/// table is skipped.
pub open spec fn just_selection(names: Seq<String>, tables: Seq<Table>) -> Seq<Table>
    decreases names.len(),
{
    if names.len() == 0 {
        Seq::empty()
    } else {
        let rest = just_selection(names.drop_first(), tables);
        match find_table(tables, names[0]@) {
            Some(t) => seq![t] + rest,
            None => rest,
        }
    }
}

/// Some string of `names` equals `name`.
pub open spec fn name_in(names: Seq<String>, name: Seq<char>) -> bool {
    exists|i: int| 0 <= i < names.len() && #[trigger] names[i]@ == name
}

/// A table name is excluded when an exclusion list is present and names it.
pub open spec fn excluded_name(excl: Option<Vec<String>>, name: Seq<char>) -> bool {
    match excl {
        Some(names) => name_in(names@, name),
        None => false,
    }
}

/// All tables except the excluded ones, in their given order.
pub open spec fn exclude_selection(excl: Option<Vec<String>>, tables: Seq<Table>) -> Seq<Table>
    decreases tables.len(),
{
    if tables.len() == 0 {
        Seq::empty()
    } else {
        let rest = exclude_selection(excl, tables.drop_first());
        if excluded_name(excl, tables[0].name@) {
            rest
        } else {
            seq![tables[0]] + rest
        }
    }
}

/// The selector's result: the "only" list totally decides membership and
/// order when present; otherwise the exclusion list filters the tables in
/// introspection order.
pub open spec fn selection(cfg: Config, tables: Seq<Table>) -> Seq<Table> {
    match cfg.just_table {
        Some(just) => just_selection(just@, tables),
        None => exclude_selection(cfg.exclude_table, tables),
    }
}

/// The first table of `tables` whose name equals `name`, if any.
fn find_table_exec<'a>(tables: &'a Vec<Table>, name: &str) -> (r: Option<&'a Table>)
    ensures
        match r {
            Some(t) => find_table(tables@, name@) == Some(*t),
            None => find_table(tables@, name@) is None,
        },
{
    let mut i: usize = 0;
    proof {
        assert(tables@.skip(0) =~= tables@);
    }
    while i < tables.len()
        invariant
            i <= tables.len(),
            find_table(tables@, name@) == find_table(tables@.skip(i as int), name@),
        decreases tables.len() - i,
    {
        proof {
            assert(tables@.skip(i as int)[0] == tables@[i as int]);
            assert(tables@.skip(i as int).drop_first() =~= tables@.skip(i as int + 1));
        }
        if str_eq(tables[i].name.as_str(), name) {
            return Some(&tables[i]);
        }
        i += 1;
    }
    proof {
        assert(tables@.skip(tables@.len() as int) =~= Seq::<Table>::empty());
    }
    None
}

/// Some string of `names` equals `name`.
fn name_in_exec(names: &Vec<String>, name: &str) -> (r: bool)
    ensures
        r == name_in(names@, name@),
{
    let mut i: usize = 0;
    while i < names.len()
        invariant
            i <= names.len(),
            forall|k: int| 0 <= k < i ==> names@[k]@ != name@,
        decreases names.len() - i,
    {
        if str_eq(names[i].as_str(), name) {
            return true;
        }
        i += 1;
    }
    false
}

impl Database {
    /// Narrows and orders the introspected tables per the configuration:
    /// with `just_table` present, exactly the named tables in that order
    /// (unknown names silently skipped); otherwise every table not named
    /// by `exclude_table`, in introspection order.
    pub fn select_tables(config: &Config, tables: &Vec<Table>) -> (r: Vec<Table>)
        ensures
            r@ == selection(*config, tables@),
    {
        let mut r: Vec<Table> = Vec::new();
        match &config.just_table {
            Some(just) => {
                let mut i: usize = 0;
                proof {
                    assert(just@.skip(0) =~= just@);
                }
                while i < just.len()
                    invariant
                        i <= just.len(),
                        r@ + just_selection(just@.skip(i as int), tables@) == just_selection(
                            just@,
                            tables@,
                        ),
                    decreases just.len() - i,
                {
                    proof {
                        assert(just@.skip(i as int)[0] == just@[i as int]);
                        assert(just@.skip(i as int).drop_first() =~= just@.skip(i as int + 1));
                    }
                    match find_table_exec(tables, just[i].as_str()) {
                        Some(t) => {
                            let ghost tv = *t;
                            let ghost old_r = r@;
                            r.push(t.clone());
                            proof {
                                assert(r@ =~= old_r + seq![tv]);
                                assert((old_r + seq![tv]) + just_selection(
                                    just@.skip(i as int + 1),
                                    tables@,
                                ) =~= old_r + (seq![tv] + just_selection(
                                    just@.skip(i as int + 1),
                                    tables@,
                                )));
                            }
                        },
                        None => {},
                    }
                    i += 1;
                }
                proof {
                    assert(just@.skip(just@.len() as int) =~= Seq::<String>::empty());
                    assert(r@ + Seq::<Table>::empty() =~= r@);
                }
            },
            None => {
                let mut i: usize = 0;
                proof {
                    assert(tables@.skip(0) =~= tables@);
                }
                while i < tables.len()
                    invariant
                        i <= tables.len(),
                        r@ + exclude_selection(config.exclude_table, tables@.skip(i as int))
                            == exclude_selection(config.exclude_table, tables@),
                    decreases tables.len() - i,
                {
                    proof {
                        assert(tables@.skip(i as int)[0] == tables@[i as int]);
                        assert(tables@.skip(i as int).drop_first() =~= tables@.skip(i as int + 1));
                    }
                    let mut skip_this = false;
                    match &config.exclude_table {
                        Some(excl) => {
                            skip_this = name_in_exec(excl, tables[i].name.as_str());
                        },
                        None => {},
                    }
                    if !skip_this {
                        let ghost old_r = r@;
                        r.push(tables[i].clone());
                        proof {
                            assert(r@ =~= old_r + seq![tables@[i as int]]);
                            assert((old_r + seq![tables@[i as int]]) + exclude_selection(
                                config.exclude_table,
                                tables@.skip(i as int + 1),
                            ) =~= old_r + (seq![tables@[i as int]] + exclude_selection(
                                config.exclude_table,
                                tables@.skip(i as int + 1),
                            )));
                        }
                    }
                    i += 1;
                }
                proof {
                    assert(tables@.skip(tables@.len() as int) =~= Seq::<Table>::empty());
                    assert(r@ + Seq::<Table>::empty() =~= r@);
                }
            },
        }
        r
    }

    /// Renders and assembles the final text for the already selected
    /// tables, in their given order: the baseline import directives, the
    /// JSON-support imports when some rendered field requires them, and
    /// one struct declaration per table. Fails exactly when some column's
    /// raw type descriptor matches no classifier rule, naming the first
    /// such table, column and descriptor.
    pub fn generate_rust_code(config: &Config, tables: &Vec<TableSchema>) -> (r: Result<
        String,
        GenError,
    >)
        ensures
            r is Ok <==> first_bad_table(tables@) is None,
            r is Ok ==> r->Ok_0@ == generated_code(*config, tables@),
            r is Err ==> ({
                let bad = first_bad_table(tables@)->0;
                &&& r->Err_0.table@ == bad.table.name@
                &&& r->Err_0.column@ == first_bad(bad.columns@)->0.column_name@
                &&& r->Err_0.descriptor@ == first_bad(bad.columns@)->0.column_type@
            }),
    {
        let mut use_json = false;
        let mut tables_str: Vec<String> = Vec::new();
        let mut i: usize = 0;
        proof {
            assert(tables@.skip(0) =~= tables@);
        }
        while i < tables.len()
            invariant
                i <= tables.len(),
                first_bad_table(tables@) == first_bad_table(tables@.skip(i as int)),
                (use_json || use_json_any(tables@.skip(i as int), *config)) == use_json_any(
                    tables@,
                    *config,
                ),
                tables_str@.len() == i,
                forall|k: int|
                    0 <= k < i ==> views_of(tables_str@)[k] == #[trigger] record_code(
                        tables@[k].table,
                        tables@[k].columns@,
                        *config,
                    ),
            decreases tables.len() - i,
        {
            proof {
                assert(tables@.skip(i as int)[0] == tables@[i as int]);
                assert(tables@.skip(i as int).drop_first() =~= tables@.skip(i as int + 1));
            }
            let t = &tables[i];
            match t.table.to_rust_code(&t.columns, config) {
                Ok(lit) => {
                    if lit.use_json {
                        use_json = true;
                    }
                    tables_str.push(lit.rust_code);
                },
                Err(e) => {
                    return Err(e);
                },
            }
            i += 1;
        }
        proof {
            assert(tables@.skip(tables@.len() as int) =~= Seq::<TableSchema>::empty());
            assert(views_of(tables_str@) =~= record_codes(tables@, *config));
        }
        let body = join_strings(&tables_str, "\n");
        let mut out = String::new();
        if use_json {
            out.append(
                "use serde::{Serialize, Deserialize};\nuse sqlx::FromRow;\nuse sqlx::types::Json;\n\nuse super::json;",
            );
        } else {
            out.append("use serde::{Serialize, Deserialize};\nuse sqlx::FromRow;");
        }
        out.append("\n\n");
        out.append(body.as_str());
        proof {
            assert(out@ =~= generated_code(*config, tables@));
        }
        Ok(out)
    }
}

/// The first selected table holding a column whose raw type descriptor
/// matches no classifier rule.
pub open spec fn first_bad_table(tabs: Seq<TableSchema>) -> Option<TableSchema>
    decreases tabs.len(),
{
    if tabs.len() == 0 {
        None
    } else if first_bad(tabs[0].columns@) is Some {
        Some(tabs[0])
    } else {
        first_bad_table(tabs.drop_first())
    }
}

/// Some rendered field of some selected table requires the JSON feature.
pub open spec fn use_json_any(tabs: Seq<TableSchema>, cfg: Config) -> bool
    decreases tabs.len(),
{
    if tabs.len() == 0 {
        false
    } else {
        table_flags(tabs[0].columns@, table_cfg(cfg, tabs[0].table.name@)).4 || use_json_any(
            tabs.drop_first(),
            cfg,
        )
    }
}

/// The import directives heading the output: serialization and
/// persistence-mapping support always, JSON support only when some
/// rendered field requires it.
pub open spec fn header_code(use_json: bool) -> Seq<char> {
    if use_json {
        "use serde::{Serialize, Deserialize};\nuse sqlx::FromRow;\nuse sqlx::types::Json;\n\nuse super::json;"@
    } else {
        "use serde::{Serialize, Deserialize};\nuse sqlx::FromRow;"@
    }
}

/// The rendered struct declarations of the selected tables, in order.
pub open spec fn record_codes(tabs: Seq<TableSchema>, cfg: Config) -> Seq<Seq<char>> {
    tabs.map_values(|td: TableSchema| record_code(td.table, td.columns@, cfg))
}

/// The whole generated artifact: the import block, a blank line, and the
/// struct declarations separated by blank lines.
pub open spec fn generated_code(cfg: Config, tabs: Seq<TableSchema>) -> Seq<char> {
    header_code(use_json_any(tabs, cfg)) + "\n\n"@ + join_sep(record_codes(tabs, cfg), "\n"@)
}

} // verus!

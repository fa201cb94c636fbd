//! The override engine and the field/record emitter: resolves each
//! column's rendered Rust type from the classifier's result and the
//! configuration (custom type, JSON wrapper, global alias, nullability),
//! and renders one field per column and one struct declaration per table,
//! tracking which cross-cutting features the rendered types require.

use vstd::prelude::*;
use vstd::string::*;
use crate::config;
use crate::config::{assoc_first, assoc_position, Config};
use crate::database::{Columns, Table};
use crate::text::{join_sep, join_strings, str_eq, views_of};
use crate::types::{classify_descriptor, default_name, LiteralRustType};

verus! {

/// Rendered code for one field or one record, with the feature flags the
/// rendered types require.
#[derive(Debug)]
pub struct DbLiteral {
    pub rust_code: String,
    pub use_date: bool,
    pub use_time: bool,
    pub use_datetime: bool,
    pub use_decimal: bool,
    pub use_json: bool,
}

/// A column whose raw type descriptor matched no classifier rule.
#[derive(Debug)]
pub struct ColumnError {
    pub column: String,
    pub descriptor: String,
}

/// A classification failure located in its table: the table, the column
/// and the offending raw type descriptor.
#[derive(Debug)]
pub struct GenError {
    pub table: String,
    pub column: String,
    pub descriptor: String,
}

/// What the result of heck's camel case conversion is named: the result
/// depends on the characters of the input alone.
pub uninterp spec fn camel_of(s: Seq<char>) -> Seq<char>;

/// Relies on heck's `CamelCase::to_camel_case` for `str`: a pure function
/// of the input characters, rendering them as capitalized concatenated
/// words.
#[verifier::external_body]
fn to_camel(s: &str) -> (r: String)
    ensures
        r@ == camel_of(s@),
{
    heck::CamelCase::to_camel_case(s)
}

/// The column override seen through a reference, as a plain value.
pub open spec fn cfg_val(c: Option<&config::Column>) -> Option<config::Column> {
    match c {
        Some(x) => Some(*x),
        None => None,
    }
}

/// The alias list seen through a reference, as a sequence of pairs.
pub open spec fn alias_val(r: Option<&Vec<(String, String)>>) -> Option<Seq<(String, String)>> {
    match r {
        Some(v) => Some(v@),
        None => None,
    }
}

/// The configuration's alias list as a sequence of pairs.
pub open spec fn alias_of(cfg: Config) -> Option<Seq<(String, String)>> {
    match cfg.replace_type {
        Some(v) => Some(v@),
        None => None,
    }
}

/// The configured override entry for the named table.
pub open spec fn table_cfg(cfg: Config, name: Seq<char>) -> Option<config::Table> {
    match cfg.config {
        Some(db) => match db.tables {
            Some(pairs) => assoc_first(pairs@, name),
            None => None,
        },
        None => None,
    }
}

/// The configured override entry for the named column of a table entry.
pub open spec fn column_cfg(tc: Option<config::Table>, name: Seq<char>) -> Option<config::Column> {
    match tc {
        Some(t) => match t.columns {
            Some(pairs) => assoc_first(pairs@, name),
            None => None,
        },
        None => None,
    }
}

/// The override names a fully custom type.
pub open spec fn has_custom(cc: Option<config::Column>) -> bool {
    cc is Some && cc->0.custom_type is Some
}

/// The override names a JSON-wrapped payload type.
pub open spec fn has_json(cc: Option<config::Column>) -> bool {
    cc is Some && cc->0.json_type is Some
}

/// The resolved type name before nullability wrapping. Precedence, first
/// match winning: the custom type verbatim; the JSON wrapper of the
/// configured payload type; the classified kind's default name, replaced
/// by the alias list on an exact key match.
pub open spec fn inner_type(
    kind: LiteralRustType,
    cc: Option<config::Column>,
    aliases: Option<Seq<(String, String)>>,
) -> Seq<char> {
    if has_custom(cc) {
        cc->0.custom_type->0@
    } else if has_json(cc) {
        "Json<"@ + cc->0.json_type->0@ + ">"@
    } else {
        let n = default_name(kind);
        match aliases {
            Some(pairs) => match assoc_first(pairs, n) {
                Some(r) => r@,
                None => n,
            },
            None => n,
        }
    }
}

/// The final resolved type name: the inner type, wrapped as `Option` when
/// the column is nullable, whichever branch produced the inner type.
pub open spec fn resolved_type(
    kind: LiteralRustType,
    nullable: bool,
    cc: Option<config::Column>,
    aliases: Option<Seq<(String, String)>>,
) -> Seq<char> {
    if nullable {
        "Option<"@ + inner_type(kind, cc, aliases) + ">"@
    } else {
        inner_type(kind, cc, aliases)
    }
}

/// The date feature is required only when no override replaced the
/// classified kind and that kind is the naive date.
pub open spec fn field_use_date(kind: LiteralRustType, cc: Option<config::Column>) -> bool {
    !has_custom(cc) && !has_json(cc) && kind is NaiveDate
}

/// As `field_use_date`, for the naive time kind.
pub open spec fn field_use_time(kind: LiteralRustType, cc: Option<config::Column>) -> bool {
    !has_custom(cc) && !has_json(cc) && kind is NaiveTime
}

/// As `field_use_date`, for the naive datetime kind.
pub open spec fn field_use_datetime(kind: LiteralRustType, cc: Option<config::Column>) -> bool {
    !has_custom(cc) && !has_json(cc) && kind is NaiveDateTime
}

/// As `field_use_date`, for the decimal kind.
pub open spec fn field_use_decimal(kind: LiteralRustType, cc: Option<config::Column>) -> bool {
    !has_custom(cc) && !has_json(cc) && kind is Decimal
}

/// The JSON feature is required by a configured JSON wrapper, or by a
/// column classified as a JSON document that no override replaced.
pub open spec fn field_use_json(kind: LiteralRustType, cc: Option<config::Column>) -> bool {
    if has_custom(cc) {
        false
    } else if has_json(cc) {
        true
    } else {
        kind is Json
    }
}

/// A column name colliding with a reserved identifier is escaped with the
/// raw-identifier marker.
pub open spec fn escaped_name(name: Seq<char>) -> Seq<char> {
    if name == "type"@ {
        "r#"@ + name
    } else {
        name
    }
}

/// The rendered field declaration: a documentation line from the column
/// comment, then the escaped name and the resolved type.
pub open spec fn field_code(
    c: Columns,
    cc: Option<config::Column>,
    aliases: Option<Seq<(String, String)>>,
) -> Seq<char> {
    "    /// "@ + c.column_comment@ + "\n    pub "@ + escaped_name(c.column_name@) + ": "@
        + resolved_type(
        classify_descriptor(c.column_type@)->0,
        c.is_nullable@ == "YES"@,
        cc,
        aliases,
    ) + ","@
}

/// The feature flags one column contributes, as
/// `(date, time, datetime, decimal, json)`.
pub open spec fn field_flags(c: Columns, cc: Option<config::Column>) -> (
    bool,
    bool,
    bool,
    bool,
    bool,
) {
    let kind = classify_descriptor(c.column_type@)->0;
    (
        field_use_date(kind, cc),
        field_use_time(kind, cc),
        field_use_datetime(kind, cc),
        field_use_decimal(kind, cc),
        field_use_json(kind, cc),
    )
}

/// Componentwise disjunction of two flag tuples.
pub open spec fn or5(
    a: (bool, bool, bool, bool, bool),
    b: (bool, bool, bool, bool, bool),
) -> (bool, bool, bool, bool, bool) {
    (a.0 || b.0, a.1 || b.1, a.2 || b.2, a.3 || b.3, a.4 || b.4)
}

/// The union of the feature flags of all columns of a table.
pub open spec fn table_flags(cols: Seq<Columns>, tc: Option<config::Table>) -> (
    bool,
    bool,
    bool,
    bool,
    bool,
)
    decreases cols.len(),
{
    if cols.len() == 0 {
        (false, false, false, false, false)
    } else {
        or5(
            field_flags(cols[0], column_cfg(tc, cols[0].column_name@)),
            table_flags(cols.drop_first(), tc),
        )
    }
}

/// The first column whose raw type descriptor matches no classifier rule.
pub open spec fn first_bad(cols: Seq<Columns>) -> Option<Columns>
    decreases cols.len(),
{
    if cols.len() == 0 {
        None
    } else if classify_descriptor(cols[0].column_type@) is None {
        Some(cols[0])
    } else {
        first_bad(cols.drop_first())
    }
}

/// The rendered field declarations of a table's columns, in column order.
pub open spec fn field_codes(
    cols: Seq<Columns>,
    tc: Option<config::Table>,
    aliases: Option<Seq<(String, String)>>,
) -> Seq<Seq<char>> {
    cols.map_values(|c: Columns| field_code(c, column_cfg(tc, c.column_name@), aliases))
}

/// The rendered struct declaration for one table: a documentation line
/// from the table comment, a derive line, the camel-cased struct name and
/// the field block.
pub open spec fn record_code(t: Table, cols: Seq<Columns>, cfg: Config) -> Seq<char> {
    "\n/// "@ + t.comment@ + "\n#[derive(Debug, Clone, Deserialize, Serialize, FromRow)]\npub struct "@
        + camel_of(t.name@) + " {\n"@ + join_sep(
        field_codes(cols, table_cfg(cfg, t.name@), alias_of(cfg)),
        "\n"@,
    ) + "\n}"@
}

/// Law: a nullable column's final resolved type is the inner type wrapped
/// as `Option`, whichever override branch produced the inner type.
pub proof fn lemma_nullable_wraps_option(
    kind: LiteralRustType,
    cc: Option<config::Column>,
    aliases: Option<Seq<(String, String)>>,
)
    ensures
        resolved_type(kind, true, cc, aliases) == "Option<"@ + inner_type(kind, cc, aliases)
            + ">"@,
{
}

/// Law: with a custom type configured, the inner type is exactly that
/// string, irrespective of the classified kind, of a configured JSON
/// wrapper, and of the alias list.
pub proof fn lemma_custom_type_wins(
    kind: LiteralRustType,
    other_kind: LiteralRustType,
    cc: Option<config::Column>,
    aliases: Option<Seq<(String, String)>>,
    other_aliases: Option<Seq<(String, String)>>,
)
    requires
        has_custom(cc),
    ensures
        inner_type(kind, cc, aliases) == cc->0.custom_type->0@,
        inner_type(kind, cc, aliases) == inner_type(other_kind, cc, other_aliases),
{
}

/// Law: with a JSON wrapper configured and no custom type, the inner type
/// is the JSON wrapper of the configured payload type, and the column's
/// JSON feature flag is set, irrespective of the classified kind and of
/// the alias list.
pub proof fn lemma_json_type_wraps(
    kind: LiteralRustType,
    cc: Option<config::Column>,
    aliases: Option<Seq<(String, String)>>,
)
    requires
        !has_custom(cc),
        has_json(cc),
    ensures
        inner_type(kind, cc, aliases) == "Json<"@ + cc->0.json_type->0@ + ">"@,
        field_use_json(kind, cc),
{
}

/// Law: a column's set JSON feature flag propagates to its table's flags.
pub proof fn lemma_json_flag_propagates(cols: Seq<Columns>, tc: Option<config::Table>, i: int)
    requires
        0 <= i < cols.len(),
        field_use_json(
            classify_descriptor(cols[i].column_type@)->0,
            column_cfg(tc, cols[i].column_name@),
        ),
    ensures
        table_flags(cols, tc).4,
    decreases cols.len(),
{
    if i > 0 {
        assert(cols.drop_first()[i - 1] == cols[i]);
        lemma_json_flag_propagates(cols.drop_first(), tc, i - 1);
    }
}

/// Law: the alias list has no effect on a column with a custom type or a
/// JSON wrapper configured.
pub proof fn lemma_alias_ignored_under_override(
    kind: LiteralRustType,
    cc: Option<config::Column>,
    aliases: Option<Seq<(String, String)>>,
    other_aliases: Option<Seq<(String, String)>>,
)
    requires
        has_custom(cc) || has_json(cc),
    ensures
        inner_type(kind, cc, aliases) == inner_type(kind, cc, other_aliases),
{
}

/// Law: without overrides, the alias list replaces the default rendered
/// name exactly when it holds that name as a key, and otherwise leaves it
/// unchanged.
pub proof fn lemma_alias_exact_match(
    kind: LiteralRustType,
    cc: Option<config::Column>,
    pairs: Seq<(String, String)>,
)
    requires
        !has_custom(cc),
        !has_json(cc),
    ensures
        assoc_first(pairs, default_name(kind)) is Some ==> inner_type(kind, cc, Some(pairs))
            == assoc_first(pairs, default_name(kind))->0@,
        assoc_first(pairs, default_name(kind)) is None ==> inner_type(kind, cc, Some(pairs))
            == default_name(kind),
{
}

impl Columns {
    /// Renders this column as one field declaration, with the feature
    /// flags its resolved type requires. Fails exactly when the raw type
    /// descriptor matches no classifier rule, naming the column and the
    /// descriptor.
    pub fn to_rust_code(
        &self,
        config: Option<&config::Column>,
        replace_type: Option<&Vec<(String, String)>>,
    ) -> (r: Result<DbLiteral, ColumnError>)
        ensures
            r is Ok <==> classify_descriptor(self.column_type@) is Some,
            r is Ok ==> ({
                let lit = r->Ok_0;
                let kind = classify_descriptor(self.column_type@)->0;
                let cc = cfg_val(config);
                &&& lit.rust_code@ == field_code(*self, cc, alias_val(replace_type))
                &&& lit.use_date == field_use_date(kind, cc)
                &&& lit.use_time == field_use_time(kind, cc)
                &&& lit.use_datetime == field_use_datetime(kind, cc)
                &&& lit.use_decimal == field_use_decimal(kind, cc)
                &&& lit.use_json == field_use_json(kind, cc)
            }),
            r is Err ==> r->Err_0.column@ == self.column_name@ && r->Err_0.descriptor@
                == self.column_type@,
    {
        let kind = match LiteralRustType::from_str(self.column_type.as_str()) {
            Some(k) => k,
            None => {
                return Err(
                    ColumnError {
                        column: self.column_name.clone(),
                        descriptor: self.column_type.clone(),
                    },
                );
            },
        };
        let ghost cc = cfg_val(config);
        let ghost aliases = alias_val(replace_type);
        let mut use_date = false;
        let mut use_time = false;
        let mut use_datetime = false;
        let mut use_decimal = false;
        let mut use_json = false;
        let mut custom: Option<&String> = None;
        let mut json: Option<&String> = None;
        if let Some(c) = config {
            if let Some(ct) = &c.custom_type {
                custom = Some(ct);
            }
            if let Some(jt) = &c.json_type {
                json = Some(jt);
            }
        }
        let mut ty: String;
        if let Some(ct) = custom {
            ty = ct.clone();
        } else if let Some(jt) = json {
            use_json = true;
            let mut w = String::new();
            w.append("Json<");
            w.append(jt.as_str());
            w.append(">");
            ty = w;
            proof {
                assert(ty@ =~= "Json<"@ + jt@ + ">"@);
            }
        } else {
            match kind {
                LiteralRustType::NaiveDateTime => use_datetime = true,
                LiteralRustType::NaiveDate => use_date = true,
                LiteralRustType::NaiveTime => use_time = true,
                LiteralRustType::Decimal => use_decimal = true,
                LiteralRustType::Json => use_json = true,
                _ => (),
            }
            let n: &str = kind.rust_type_name();
            ty = match replace_type {
                Some(pairs) => match assoc_position(pairs, n) {
                    Some(i) => pairs[i].1.clone(),
                    None => n.to_owned(),
                },
                None => n.to_owned(),
            };
        }
        proof {
            assert(ty@ == inner_type(kind, cc, aliases));
        }
        if str_eq(self.is_nullable.as_str(), "YES") {
            let mut w = String::new();
            w.append("Option<");
            w.append(ty.as_str());
            w.append(">");
            proof {
                assert(w@ =~= "Option<"@ + ty@ + ">"@);
            }
            ty = w;
        }
        let name: String = if str_eq(self.column_name.as_str(), "type") {
            let mut e = String::new();
            e.append("r#");
            e.append(self.column_name.as_str());
            proof {
                assert(e@ =~= "r#"@ + self.column_name@);
            }
            e
        } else {
            self.column_name.clone()
        };
        let mut code = String::new();
        code.append("    /// ");
        code.append(self.column_comment.as_str());
        code.append("\n    pub ");
        code.append(name.as_str());
        code.append(": ");
        code.append(ty.as_str());
        code.append(",");
        proof {
            assert(code@ =~= field_code(*self, cc, aliases));
        }
        Ok(
            DbLiteral {
                rust_code: code,
                use_date: use_date,
                use_time: use_time,
                use_datetime: use_datetime,
                use_decimal: use_decimal,
                use_json: use_json,
            },
        )
    }
}

impl Table {
    /// Renders this table as one struct declaration from its columns,
    /// with the union of its fields' feature flags. Fails exactly when
    /// some column's raw type descriptor matches no classifier rule,
    /// naming this table and the first such column.
    pub fn to_rust_code(&self, columns: &Vec<Columns>, config: &Config) -> (r: Result<
        DbLiteral,
        GenError,
    >)
        ensures
            r is Ok <==> first_bad(columns@) is None,
            r is Ok ==> ({
                let lit = r->Ok_0;
                let tc = table_cfg(*config, self.name@);
                &&& lit.rust_code@ == record_code(*self, columns@, *config)
                &&& (lit.use_date, lit.use_time, lit.use_datetime, lit.use_decimal, lit.use_json)
                    == table_flags(columns@, tc)
            }),
            r is Err ==> ({
                let bad = first_bad(columns@)->0;
                &&& r->Err_0.table@ == self.name@
                &&& r->Err_0.column@ == bad.column_name@
                &&& r->Err_0.descriptor@ == bad.column_type@
            }),
    {
        let ghost tc = table_cfg(*config, self.name@);
        let ghost aliases = alias_of(*config);
        let mut table_config: Option<&config::Table> = None;
        if let Some(database_config) = &config.config {
            if let Some(tabs) = &database_config.tables {
                match assoc_position(tabs, self.name.as_str()) {
                    Some(i) => {
                        table_config = Some(&tabs[i].1);
                    },
                    None => {},
                }
            }
        }
        proof {
            match table_config {
                Some(t) => {
                    assert(tc == Some(*t));
                },
                None => {
                    assert(tc is None);
                },
            }
        }
        let replace_type: Option<&Vec<(String, String)>> = match &config.replace_type {
            Some(v) => Some(v),
            None => None,
        };
        let mut use_date = false;
        let mut use_time = false;
        let mut use_datetime = false;
        let mut use_decimal = false;
        let mut use_json = false;
        let mut codes: Vec<String> = Vec::new();
        let mut i: usize = 0;
        proof {
            assert(columns@.skip(0) =~= columns@);
        }
        while i < columns.len()
            invariant
                i <= columns.len(),
                tc == table_cfg(*config, self.name@),
                aliases == alias_of(*config),
                match table_config {
                    Some(t) => tc == Some(*t),
                    None => tc is None,
                },
                aliases == alias_val(replace_type),
                first_bad(columns@) == first_bad(columns@.skip(i as int)),
                or5(
                    (use_date, use_time, use_datetime, use_decimal, use_json),
                    table_flags(columns@.skip(i as int), tc),
                ) == table_flags(columns@, tc),
                codes@.len() == i,
                forall|k: int|
                    0 <= k < i ==> views_of(codes@)[k] == #[trigger] field_code(
                        columns@[k],
                        column_cfg(tc, columns@[k].column_name@),
                        aliases,
                    ),
            decreases columns.len() - i,
        {
            proof {
                assert(columns@.skip(i as int)[0] == columns@[i as int]);
                assert(columns@.skip(i as int).drop_first() =~= columns@.skip(i as int + 1));
            }
            let column = &columns[i];
            let mut column_config: Option<&config::Column> = None;
            if let Some(t) = table_config {
                if let Some(cols) = &t.columns {
                    match assoc_position(cols, column.column_name.as_str()) {
                        Some(j) => {
                            column_config = Some(&cols[j].1);
                        },
                        None => {},
                    }
                }
            }
            proof {
                assert(cfg_val(column_config) == column_cfg(tc, columns@[i as int].column_name@));
            }
            match column.to_rust_code(column_config, replace_type) {
                Ok(lit) => {
                    if lit.use_date {
                        use_date = true;
                    }
                    if lit.use_time {
                        use_time = true;
                    }
                    if lit.use_datetime {
                        use_datetime = true;
                    }
                    if lit.use_decimal {
                        use_decimal = true;
                    }
                    if lit.use_json {
                        use_json = true;
                    }
                    codes.push(lit.rust_code);
                },
                Err(e) => {
                    return Err(
                        GenError {
                            table: self.name.clone(),
                            column: e.column,
                            descriptor: e.descriptor,
                        },
                    );
                },
            }
            i += 1;
        }
        proof {
            assert(columns@.skip(columns@.len() as int) =~= Seq::<Columns>::empty());
            assert(views_of(codes@) =~= field_codes(columns@, tc, aliases));
        }
        let columns_str = join_strings(&codes, "\n");
        let mut code = String::new();
        code.append("\n/// ");
        code.append(self.comment.as_str());
        code.append("\n#[derive(Debug, Clone, Deserialize, Serialize, FromRow)]\npub struct ");
        let camel = to_camel(self.name.as_str());
        code.append(camel.as_str());
        code.append(" {\n");
        code.append(columns_str.as_str());
        code.append("\n}");
        proof {
            assert(code@ =~= record_code(*self, columns@, *config));
        }
        Ok(
            DbLiteral {
                rust_code: code,
                use_date: use_date,
                use_time: use_time,
                use_datetime: use_datetime,
                use_decimal: use_decimal,
                use_json: use_json,
            },
        )
    }
}

} // verus!

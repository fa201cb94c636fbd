//! Canonical Rust scalar types for MySQL columns, and the classifier that
//! maps a raw column type descriptor (such as `"int(11) unsigned"`) to one
//! of them by case-insensitive ordered substring matching.

use vstd::prelude::*;
use vstd::string::*;

verus! {

/// The closed set of Rust types a column can be classified as.
#[derive(Debug, Clone, Copy, PartialEq, Eq, Structural)]
pub enum LiteralRustType {
    Bool,
    I8,
    I16,
    I32,
    I64,
    U8,
    U16,
    U32,
    U64,
    F32,
    F64,
    String,
    VecU8,
    DateTimeLocal,
    NaiveDateTime,
    NaiveDate,
    NaiveTime,
    Decimal,
    Json,
}

/// ASCII uppercase of one character; every other character is unchanged.
pub open spec fn upper_char(c: char) -> char {
    if c == 'a' {
        'A'
    } else if c == 'b' {
        'B'
    } else if c == 'c' {
        'C'
    } else if c == 'd' {
        'D'
    } else if c == 'e' {
        'E'
    } else if c == 'f' {
        'F'
    } else if c == 'g' {
        'G'
    } else if c == 'h' {
        'H'
    } else if c == 'i' {
        'I'
    } else if c == 'j' {
        'J'
    } else if c == 'k' {
        'K'
    } else if c == 'l' {
        'L'
    } else if c == 'm' {
        'M'
    } else if c == 'n' {
        'N'
    } else if c == 'o' {
        'O'
    } else if c == 'p' {
        'P'
    } else if c == 'q' {
        'Q'
    } else if c == 'r' {
        'R'
    } else if c == 's' {
        'S'
    } else if c == 't' {
        'T'
    } else if c == 'u' {
        'U'
    } else if c == 'v' {
        'V'
    } else if c == 'w' {
        'W'
    } else if c == 'x' {
        'X'
    } else if c == 'y' {
        'Y'
    } else if c == 'z' {
        'Z'
    } else {
        c
    }
}

/// ASCII uppercase of a character sequence.
pub open spec fn upper_seq(s: Seq<char>) -> Seq<char> {
    s.map_values(|c: char| upper_char(c))
}

/// `pat` occurs as a contiguous subsequence of `s`.
pub open spec fn contains_seq(s: Seq<char>, pat: Seq<char>) -> bool {
    exists|i: int|
        0 <= i && i + pat.len() <= s.len() && #[trigger] s.subrange(i, i + pat.len() as int)
            == pat
}

/// ASCII uppercase of one character, executable form.
fn to_upper_char(c: char) -> (r: char)
    ensures
        r == upper_char(c),
{
    if c == 'a' {
        'A'
    } else if c == 'b' {
        'B'
    } else if c == 'c' {
        'C'
    } else if c == 'd' {
        'D'
    } else if c == 'e' {
        'E'
    } else if c == 'f' {
        'F'
    } else if c == 'g' {
        'G'
    } else if c == 'h' {
        'H'
    } else if c == 'i' {
        'I'
    } else if c == 'j' {
        'J'
    } else if c == 'k' {
        'K'
    } else if c == 'l' {
        'L'
    } else if c == 'm' {
        'M'
    } else if c == 'n' {
        'N'
    } else if c == 'o' {
        'O'
    } else if c == 'p' {
        'P'
    } else if c == 'q' {
        'Q'
    } else if c == 'r' {
        'R'
    } else if c == 's' {
        'S'
    } else if c == 't' {
        'T'
    } else if c == 'u' {
        'U'
    } else if c == 'v' {
        'V'
    } else if c == 'w' {
        'W'
    } else if c == 'x' {
        'X'
    } else if c == 'y' {
        'Y'
    } else if c == 'z' {
        'Z'
    } else {
        c
    }
}

/// The uppercased window of `s` starting at `i` equals `pat`.
fn upper_match_at(s: &str, pat: &str, i: usize) -> (b: bool)
    requires
        i + pat@.len() <= s@.len(),
    ensures
        b == (upper_seq(s@).subrange(i as int, i as int + pat@.len() as int) == pat@),
{
    let m: usize = pat.unicode_len();
    let n: usize = s.unicode_len();
    let ghost win = upper_seq(s@).subrange(i as int, i as int + pat@.len() as int);
    let mut j: usize = 0;
    while j < m
        invariant
            j <= m,
            m == pat@.len(),
            n == s@.len(),
            i + m <= s@.len(),
            win == upper_seq(s@).subrange(i as int, i as int + m as int),
            forall|k: int| 0 <= k < j ==> upper_char(s@[i + k]) == pat@[k],
        decreases m - j,
    {
        let c: char = to_upper_char(s.get_char(i + j));
        let p: char = pat.get_char(j);
        if c != p {
            assert(win[j as int] == upper_char(s@[i + j]));
            assert(win != pat@);
            return false;
        }
        j += 1;
    }
    assert forall|k: int| 0 <= k < m implies win[k] == pat@[k] by {
        assert(win[k] == upper_char(s@[i + k]));
    }
    assert(win =~= pat@);
    true
}

/// Uppercase of `s` equals `pat` exactly.
fn upper_eq(s: &str, pat: &str) -> (b: bool)
    ensures
        b == (upper_seq(s@) == pat@),
{
    let n: usize = s.unicode_len();
    let m: usize = pat.unicode_len();
    if n != m {
        assert(upper_seq(s@).len() == s@.len());
        return false;
    }
    let r = upper_match_at(s, pat, 0);
    assert(upper_seq(s@).subrange(0, 0 + pat@.len() as int) =~= upper_seq(s@));
    r
}

/// `pat` occurs in the uppercase of `s`.
fn upper_contains(s: &str, pat: &str) -> (b: bool)
    ensures
        b == contains_seq(upper_seq(s@), pat@),
{
    let n: usize = s.unicode_len();
    let m: usize = pat.unicode_len();
    assert(upper_seq(s@).len() == s@.len());
    if m > n {
        assert(!contains_seq(upper_seq(s@), pat@));
        return false;
    }
    if m == 0 {
        assert(upper_seq(s@).subrange(0, 0 + pat@.len() as int) =~= pat@);
        assert(contains_seq(upper_seq(s@), pat@));
        return true;
    }
    let mut i: usize = 0;
    while i <= n - m
        invariant
            n == s@.len(),
            m == pat@.len(),
            1 <= m <= n,
            i <= n - m + 1,
            upper_seq(s@).len() == n,
            forall|k: int|
                0 <= k < i ==> #[trigger] upper_seq(s@).subrange(k, k + m as int) != pat@,
        decreases n - m - i + 1,
    {
        if upper_match_at(s, pat, i) {
            assert(contains_seq(upper_seq(s@), pat@));
            return true;
        }
        i += 1;
    }
    assert(!contains_seq(upper_seq(s@), pat@));
    false
}

/// The classifier's decision table over the uppercased descriptor: ordered
/// substring rules, earlier rules winning on overlap; `None` means no rule
/// matched.
pub open spec fn classify_descriptor(s: Seq<char>) -> Option<LiteralRustType> {
    let u = upper_seq(s);
    if u == "TINYINT(1)"@ {
        Some(LiteralRustType::Bool)
    } else if contains_seq(u, "TINYINT"@) {
        if contains_seq(u, "UNSIGNED"@) {
            Some(LiteralRustType::U8)
        } else {
            Some(LiteralRustType::I8)
        }
    } else if contains_seq(u, "SMALLINT"@) {
        if contains_seq(u, "UNSIGNED"@) {
            Some(LiteralRustType::U16)
        } else {
            Some(LiteralRustType::I16)
        }
    } else if contains_seq(u, "BIGINT"@) {
        if contains_seq(u, "UNSIGNED"@) {
            Some(LiteralRustType::U64)
        } else {
            Some(LiteralRustType::I64)
        }
    } else if contains_seq(u, "INT"@) {
        if contains_seq(u, "UNSIGNED"@) {
            Some(LiteralRustType::U32)
        } else {
            Some(LiteralRustType::I32)
        }
    } else if contains_seq(u, "FLOAT"@) {
        Some(LiteralRustType::F32)
    } else if contains_seq(u, "DOUBLE"@) {
        Some(LiteralRustType::F64)
    } else if contains_seq(u, "VARCHAR"@) || contains_seq(u, "CHAR"@) || contains_seq(u, "TEXT"@) {
        Some(LiteralRustType::String)
    } else if contains_seq(u, "VARBINARY"@) || contains_seq(u, "BINARY"@) || contains_seq(
        u,
        "BLOB"@,
    ) {
        Some(LiteralRustType::VecU8)
    } else if contains_seq(u, "TIMESTAMP"@) {
        Some(LiteralRustType::DateTimeLocal)
    } else if contains_seq(u, "DATETIME"@) {
        Some(LiteralRustType::NaiveDateTime)
    } else if contains_seq(u, "DATE"@) {
        Some(LiteralRustType::NaiveDate)
    } else if contains_seq(u, "TIME"@) {
        Some(LiteralRustType::NaiveTime)
    } else if contains_seq(u, "DECIMAL"@) {
        Some(LiteralRustType::Decimal)
    } else if contains_seq(u, "JSON"@) {
        Some(LiteralRustType::Json)
    } else {
        None
    }
}

/// The default rendered Rust type name for each canonical scalar type.
pub open spec fn default_name(t: LiteralRustType) -> Seq<char> {
    match t {
        LiteralRustType::Bool => "bool"@,
        LiteralRustType::I8 => "i8"@,
        LiteralRustType::I16 => "i16"@,
        LiteralRustType::I32 => "i32"@,
        LiteralRustType::I64 => "i64"@,
        LiteralRustType::U8 => "u8"@,
        LiteralRustType::U16 => "u16"@,
        LiteralRustType::U32 => "u32"@,
        LiteralRustType::U64 => "u64"@,
        LiteralRustType::F32 => "f32"@,
        LiteralRustType::F64 => "f64"@,
        LiteralRustType::String => "String"@,
        LiteralRustType::VecU8 => "Vec<u8>"@,
        LiteralRustType::DateTimeLocal => "DateTime<Local>"@,
        LiteralRustType::NaiveDateTime => "NaiveDateTime"@,
        LiteralRustType::NaiveDate => "NaiveDate"@,
        LiteralRustType::NaiveTime => "NaiveTime"@,
        LiteralRustType::Decimal => "Decimal"@,
        LiteralRustType::Json => "Json"@,
    }
}

impl LiteralRustType {
    /// Classifies a raw column type descriptor; `None` when no rule matches.
    pub fn from_str(s: &str) -> (r: Option<LiteralRustType>)
        ensures
            r == classify_descriptor(s@),
    {
        if upper_eq(s, "TINYINT(1)") {
            Some(LiteralRustType::Bool)
        } else if upper_contains(s, "TINYINT") {
            if upper_contains(s, "UNSIGNED") {
                Some(LiteralRustType::U8)
            } else {
                Some(LiteralRustType::I8)
            }
        } else if upper_contains(s, "SMALLINT") {
            if upper_contains(s, "UNSIGNED") {
                Some(LiteralRustType::U16)
            } else {
                Some(LiteralRustType::I16)
            }
        } else if upper_contains(s, "BIGINT") {
            if upper_contains(s, "UNSIGNED") {
                Some(LiteralRustType::U64)
            } else {
                Some(LiteralRustType::I64)
            }
        } else if upper_contains(s, "INT") {
            if upper_contains(s, "UNSIGNED") {
                Some(LiteralRustType::U32)
            } else {
                Some(LiteralRustType::I32)
            }
        } else if upper_contains(s, "FLOAT") {
            Some(LiteralRustType::F32)
        } else if upper_contains(s, "DOUBLE") {
            Some(LiteralRustType::F64)
        } else if upper_contains(s, "VARCHAR") || upper_contains(s, "CHAR") || upper_contains(
            s,
            "TEXT",
        ) {
            Some(LiteralRustType::String)
        } else if upper_contains(s, "VARBINARY") || upper_contains(s, "BINARY") || upper_contains(
            s,
            "BLOB",
        ) {
            Some(LiteralRustType::VecU8)
        } else if upper_contains(s, "TIMESTAMP") {
            Some(LiteralRustType::DateTimeLocal)
        } else if upper_contains(s, "DATETIME") {
            Some(LiteralRustType::NaiveDateTime)
        } else if upper_contains(s, "DATE") {
            Some(LiteralRustType::NaiveDate)
        } else if upper_contains(s, "TIME") {
            Some(LiteralRustType::NaiveTime)
        } else if upper_contains(s, "DECIMAL") {
            Some(LiteralRustType::Decimal)
        } else if upper_contains(s, "JSON") {
            Some(LiteralRustType::Json)
        } else {
            None
        }
    }

    /// The default rendered Rust type name for this canonical scalar type.
    pub fn rust_type_name(&self) -> (r: &'static str)
        ensures
            r@ == default_name(*self),
    {
        match self {
            LiteralRustType::Bool => "bool",
            LiteralRustType::I8 => "i8",
            LiteralRustType::I16 => "i16",
            LiteralRustType::I32 => "i32",
            LiteralRustType::I64 => "i64",
            LiteralRustType::U8 => "u8",
            LiteralRustType::U16 => "u16",
            LiteralRustType::U32 => "u32",
            LiteralRustType::U64 => "u64",
            LiteralRustType::F32 => "f32",
            LiteralRustType::F64 => "f64",
            LiteralRustType::String => "String",
            LiteralRustType::VecU8 => "Vec<u8>",
            LiteralRustType::DateTimeLocal => "DateTime<Local>",
            LiteralRustType::NaiveDateTime => "NaiveDateTime",
            LiteralRustType::NaiveDate => "NaiveDate",
            LiteralRustType::NaiveTime => "NaiveTime",
            LiteralRustType::Decimal => "Decimal",
            LiteralRustType::Json => "Json",
        }
    }
}

} // verus!

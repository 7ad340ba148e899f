//! Dynamic statement building: parameterized INSERT, UPDATE and DELETE text
//! from key/value payloads.
//!
//! Parameter values always travel through the driver's binding path and are
//! never interpolated into the statement text. Identifiers are the only
//! interpolated parts; an identifier taken from a request is sanitized by
//! stripping embedded quote characters before interpolation.
use vstd::prelude::*;
use vstd::string::StrSliceExecFns;
use vstd::string::StringExecFns;
use vstd::string::StringSliceAdditionalSpecFns;

verus! {

/// An identifier with every double-quote character removed: the narrow
/// injection mitigation applied to request-supplied column names.
pub open spec fn strip_quotes(s: Seq<char>) -> Seq<char> {
    s.filter(|c: char| c != '"')
}

/// A sanitized identifier wrapped in the driver's bracket quoting.
pub open spec fn bracketed(ident: Seq<char>) -> Seq<char> {
    "["@ + strip_quotes(ident) + "]"@
}

/// Parts joined with a separator, in order, with no leading or trailing
/// separator.
pub open spec fn joined(parts: Seq<Seq<char>>, sep: Seq<char>) -> Seq<char>
    decreases parts.len(),
{
    if parts.len() == 0 {
        Seq::empty()
    } else if parts.len() == 1 {
        parts[0]
    } else {
        joined(parts.drop_last(), sep) + sep + parts.last()
    }
}

/// The placeholder list for n bound parameters: n question marks, comma
/// separated.
pub open spec fn placeholders(n: nat) -> Seq<char>
    decreases n,
{
    if n == 0 {
        Seq::empty()
    } else if n == 1 {
        "?"@
    } else {
        placeholders((n - 1) as nat) + ", "@ + "?"@
    }
}

/// Column names of a generic insert payload, in payload order.
pub open spec fn insert_keys(entries: Seq<(String, String)>) -> Seq<Seq<char>> {
    entries.map_values(|p: (String, String)| p.0@)
}

/// Values of a generic insert payload, in payload order.
pub open spec fn insert_values(entries: Seq<(String, String)>) -> Seq<Seq<char>> {
    entries.map_values(|p: (String, String)| p.1@)
}

/// Each column name sanitized and bracketed, in order.
pub open spec fn bracketed_keys(keys: Seq<Seq<char>>) -> Seq<Seq<char>> {
    keys.map_values(|k: Seq<char>| bracketed(k))
}

/// Text of a keyed update. Only the request-supplied target column is
/// sanitized; the table and key column come from the route, not the payload.
pub open spec fn keyed_update_sql(
    table: Seq<char>,
    key_column: Seq<char>,
    target_column: Seq<char>,
) -> Seq<char> {
    "UPDATE "@ + table + " SET ["@ + strip_quotes(target_column) + "] = ? WHERE ["@ + key_column
        + "] = ?"@
}

/// Text of a generic insert over the given column names.
pub open spec fn insert_sql(table: Seq<char>, keys: Seq<Seq<char>>) -> Seq<char> {
    "INSERT INTO "@ + table + " ("@ + joined(bracketed_keys(keys), ", "@) + ") VALUES ("@
        + placeholders(keys.len()) + ")"@
}

/// Text of a keyed delete.
pub open spec fn keyed_delete_sql(table: Seq<char>, key_column: Seq<char>) -> Seq<char> {
    "DELETE FROM "@ + table + " WHERE ["@ + key_column + "] = ?"@
}

/// A parameterized statement: the SQL text and the values to bind to its
/// placeholders, in placeholder order.
pub struct Statement {
    pub sql: String,
    pub params: Vec<String>,
}

/// Relies on String::push: it appends the given character to the string.
#[verifier::external_body]
fn push_char(s: &mut String, c: char)
    ensures
        final(s)@ == old(s)@.push(c),
{
    s.push(c);
}

/// Removes every double-quote character from an identifier, keeping all other
/// characters in order.
pub fn sanitize_identifier(s: &str) -> (r: String)
    ensures
        r@ == strip_quotes(s@),
{
    let n = s.unicode_len();
    let mut out = String::new();
    let mut i: usize = 0;
    proof {
        reveal(Seq::filter);
        assert(s@.take(0) =~= Seq::<char>::empty());
        assert(strip_quotes(s@.take(0)) =~= Seq::<char>::empty());
    }
    while i < n
        invariant
            i <= n,
            n == s@.len(),
            out@ == strip_quotes(s@.take(i as int)),
        decreases n - i,
    {
        let c = s.get_char(i);
        if c != '"' {
            push_char(&mut out, c);
        }
        proof {
            reveal(Seq::filter);
            let t1 = s@.take(i + 1);
            assert(t1.drop_last() =~= s@.take(i as int));
            assert(t1.last() == s@[i as int]);
            assert(out@ == strip_quotes(t1));
        }
        i += 1;
    }
    proof {
        assert(s@.take(n as int) =~= s@);
    }
    out
}

/// Appends a sanitized, bracketed identifier.
fn append_bracketed(out: &mut String, ident: &str)
    ensures
        final(out)@ == old(out)@ + bracketed(ident@),
{
    let ghost base = out@;
    let cleaned = sanitize_identifier(ident);
    out.append("[");
    out.append(cleaned.as_str());
    out.append("]");
    proof {
        assert(out@ =~= base + bracketed(ident@));
    }
}

/// Builds `UPDATE <table> SET [<target_column>] = ? WHERE [<key_column>] = ?`
/// with the new value bound first and the key value second.
pub fn build_keyed_update(
    table: &str,
    key_column: &str,
    target_column: &str,
    new_value: String,
    key_value: String,
) -> (s: Statement)
    ensures
        s.sql@ == keyed_update_sql(table@, key_column@, target_column@),
        s.params.deep_view() == seq![new_value@, key_value@],
{
    let ghost nv = new_value@;
    let ghost kv = key_value@;
    let mut sql = String::from_str("UPDATE ");
    sql.append(table);
    sql.append(" SET [");
    let cleaned = sanitize_identifier(target_column);
    sql.append(cleaned.as_str());
    sql.append("] = ? WHERE [");
    sql.append(key_column);
    sql.append("] = ?");
    let mut params: Vec<String> = Vec::new();
    params.push(new_value);
    params.push(key_value);
    proof {
        assert(sql@ =~= keyed_update_sql(table@, key_column@, target_column@));
        assert(params.deep_view() =~= seq![nv, kv]);
    }
    Statement { sql, params }
}

/// Builds `DELETE FROM <table> WHERE [<key_column>] = ?` with the key value as
/// the single bound parameter.
pub fn build_keyed_delete(table: &str, key_column: &str, key_value: String) -> (s: Statement)
    ensures
        s.sql@ == keyed_delete_sql(table@, key_column@),
        s.params.deep_view() == seq![key_value@],
{
    let ghost kv = key_value@;
    let mut sql = String::from_str("DELETE FROM ");
    sql.append(table);
    sql.append(" WHERE [");
    sql.append(key_column);
    sql.append("] = ?");
    let mut params: Vec<String> = Vec::new();
    params.push(key_value);
    proof {
        assert(sql@ =~= keyed_delete_sql(table@, key_column@));
        assert(params.deep_view() =~= seq![kv]);
    }
    Statement { sql, params }
}

/// Builds `INSERT INTO <table> (<columns>) VALUES (<placeholders>)` from an
/// ordered column-to-value payload. The column list and the bound values stay
/// in lock-step: value i is bound to the placeholder of column i.
pub fn build_generic_insert(table: &str, entries: &Vec<(String, String)>) -> (s: Statement)
    ensures
        s.sql@ == insert_sql(table@, insert_keys(entries@)),
        s.params.deep_view() == insert_values(entries@),
        s.params@.len() == entries@.len(),
{
    let ghost bcols = bracketed_keys(insert_keys(entries@));
    let mut cols = String::new();
    let mut params: Vec<String> = Vec::new();
    let mut i: usize = 0;
    proof {
        assert(bcols.take(0) =~= Seq::<Seq<char>>::empty());
        assert(params.deep_view() =~= insert_values(entries@).take(0));
    }
    while i < entries.len()
        invariant
            i <= entries@.len(),
            bcols == bracketed_keys(insert_keys(entries@)),
            cols@ == joined(bcols.take(i as int), ", "@),
            params.deep_view() == insert_values(entries@).take(i as int),
        decreases entries@.len() - i,
    {
        if i > 0 {
            cols.append(", ");
        }
        append_bracketed(&mut cols, entries[i].0.as_str());
        let ghost before_params = params.deep_view();
        let value = entries[i].1.clone();
        let ghost vv = value@;
        params.push(value);
        proof {
            let t1 = bcols.take(i + 1);
            assert(t1.drop_last() =~= bcols.take(i as int));
            assert(t1.last() == bcols[i as int]);
            assert(bcols[i as int] == bracketed(entries@[i as int].0@));
            assert(cols@ =~= joined(t1, ", "@));
            assert(vv == entries@[i as int].1@);
            assert(params.deep_view() =~= before_params.push(vv));
            assert(params.deep_view() =~= insert_values(entries@).take(i + 1));
        }
        i += 1;
    }
    proof {
        assert(bcols.take(entries@.len() as int) =~= bcols);
        assert(insert_values(entries@).take(entries@.len() as int) =~= insert_values(entries@));
    }
    let ph = placeholder_text(entries.len());
    let mut sql = String::from_str("INSERT INTO ");
    sql.append(table);
    sql.append(" (");
    sql.append(cols.as_str());
    sql.append(") VALUES (");
    sql.append(ph.as_str());
    sql.append(")");
    proof {
        assert(insert_keys(entries@).len() == entries@.len());
        assert(sql@ =~= insert_sql(table@, insert_keys(entries@)));
    }
    Statement { sql, params }
}

/// Builds the comma-separated placeholder list for n bound parameters.
fn placeholder_text(n: usize) -> (r: String)
    ensures
        r@ == placeholders(n as nat),
{
    let mut out = String::new();
    let mut i: usize = 0;
    while i < n
        invariant
            i <= n,
            out@ == placeholders(i as nat),
        decreases n - i,
    {
        if i > 0 {
            out.append(", ");
        }
        out.append("?");
        proof {
            assert(out@ =~= placeholders((i + 1) as nat));
        }
        i += 1;
    }
    out
}

/// Number of occurrences of a character in a sequence.
pub open spec fn count_char(s: Seq<char>, c: char) -> nat
    decreases s.len(),
{
    if s.len() == 0 {
        0
    } else {
        count_char(s.drop_last(), c) + (if s.last() == c {
            1nat
        } else {
            0
        })
    }
}

/// Counting a character distributes over concatenation.
proof fn lemma_count_char_add(a: Seq<char>, b: Seq<char>, c: char)
    ensures
        count_char(a + b, c) == count_char(a, c) + count_char(b, c),
    decreases b.len(),
{
    if b.len() == 0 {
        assert(a + b =~= a);
    } else {
        lemma_count_char_add(a, b.drop_last(), c);
        assert((a + b).drop_last() =~= a + b.drop_last());
        assert((a + b).last() == b.last());
    }
}

/// The placeholder list for n bound parameters holds exactly n question
/// marks: every value of a generic insert gets one placeholder and no text
/// around the placeholders introduces another.
pub proof fn lemma_placeholder_count(n: nat)
    ensures
        count_char(placeholders(n), '?') == n,
    decreases n,
{
    assert(count_char("?"@, '?') == 1) by {
        reveal_strlit("?");
        reveal_with_fuel(count_char, 3);
    }
    assert(count_char(", "@, '?') == 0) by {
        reveal_strlit(", ");
        reveal_with_fuel(count_char, 4);
    }
    if n == 0 {
    } else if n == 1 {
    } else {
        lemma_placeholder_count((n - 1) as nat);
        lemma_count_char_add(placeholders((n - 1) as nat), ", "@, '?');
        lemma_count_char_add(placeholders((n - 1) as nat) + ", "@, "?"@, '?');
    }
}

/// A generic insert binds values in column order: the statement built from a
/// payload carries one placeholder per entry and its parameter list is
/// exactly the payload's values in payload order.
pub proof fn lemma_insert_alignment(entries: Seq<(String, String)>)
    ensures
        insert_values(entries).len() == entries.len(),
        forall|i: int| 0 <= i < entries.len() ==> insert_values(entries)[i] == entries[i].1@,
        count_char(placeholders(insert_keys(entries).len()), '?') == entries.len(),
{
    lemma_placeholder_count(entries.len());
}

/// True exactly when a value can travel through the driver's parameter
/// encoding, which rejects text whose byte form holds an interior NUL.
pub fn param_encodable(s: &str) -> (r: bool)
    ensures
        r == !s.spec_bytes().contains(0u8),
{
    let bytes = s.as_bytes();
    let mut i: usize = 0;
    while i < bytes.len()
        invariant
            i <= bytes@.len(),
            bytes@ == s.spec_bytes(),
            forall|j: int| 0 <= j < i ==> bytes@[j] != 0u8,
        decreases bytes@.len() - i,
    {
        if bytes[i] == 0 {
            proof {
                assert(s.spec_bytes().contains(0u8)) by {
                    assert(s.spec_bytes()[i as int] == 0u8);
                }
            }
            return false;
        }
        i += 1;
    }
    proof {
        assert(!s.spec_bytes().contains(0u8)) by {
            if s.spec_bytes().contains(0u8) {
                let j = choose|j: int| 0 <= j < s.spec_bytes().len() && s.spec_bytes()[j] == 0u8;
            }
        }
    }
    true
}

/// The narrow-write endpoint for item descriptions accepts updates to exactly
/// two columns.
pub fn item_description_column_allowed(column: &String) -> (r: bool)
    ensures
        r == (column@ == "Item_Description"@ || column@ == "Unit_Cost"@),
{
    let desc = String::from_str("Item_Description");
    let cost = String::from_str("Unit_Cost");
    *column == desc || *column == cost
}

/// The narrow-write endpoint for the reference mapping accepts updates to
/// exactly two columns.
pub fn erm_column_allowed(column: &String) -> (r: bool)
    ensures
        r == (column@ == "Cat"@ || column@ == "Group"@),
{
    let cat = String::from_str("Cat");
    let group = String::from_str("Group");
    *column == cat || *column == group
}

} // verus!

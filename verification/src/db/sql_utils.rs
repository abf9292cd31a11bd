//! The one path by which a schema, table or column name may enter SQL text.
//!
//! A name is accepted only if it is made of letters, digits and underscores,
//! does not start with a digit, and is neither empty nor longer than
//! [`MAX_IDENTIFIER_CHARS`] characters. An accepted name is then wrapped in
//! double quotes; with that character class nothing inside it needs escaping.

use vstd::prelude::*;
use vstd::string::*;
use crate::error::{AppError, ErrorView};
use crate::text::{
    alphabetic, alphanumeric, ascii_digit, char_is_alphabetic, char_is_alphanumeric, push_char,
    texts,
};

verus! {

/// The longest identifier accepted, counted in characters.
pub const MAX_IDENTIFIER_CHARS: usize = 128;

/// A character that may open an identifier.
pub open spec fn leading_char(c: char) -> bool {
    alphabetic(c) || c == '_'
}

/// A character that may stand anywhere in an identifier.
pub open spec fn identifier_char(c: char) -> bool {
    alphanumeric(c) || c == '_'
}

/// The names that are accepted.
pub open spec fn valid_identifier(name: Seq<char>) -> bool {
    &&& 0 < name.len() <= MAX_IDENTIFIER_CHARS
    &&& leading_char(name[0])
    &&& forall|i: int| 0 <= i < name.len() ==> identifier_char(#[trigger] name[i])
}

/// The place of the first character that may not stand in an identifier, or
/// the length of the name if there is none.
pub open spec fn first_invalid(name: Seq<char>) -> int
    decreases name.len(),
{
    if name.len() == 0 {
        0
    } else if !identifier_char(name[0]) {
        0
    } else {
        1 + first_invalid(name.drop_first())
    }
}

/// The explanation that goes with a refused name. The conditions are looked at
/// in this order: empty, too long, bad first character, first bad character.
pub open spec fn rejection_text(name: Seq<char>) -> Seq<char> {
    if name.len() == 0 {
        "Identifier cannot be empty"@
    } else if name.len() > MAX_IDENTIFIER_CHARS {
        "Identifier too long (max 128 characters)"@
    } else if !leading_char(name[0]) {
        "Invalid identifier '"@ + name + "': must start with a letter or underscore"@
    } else {
        "Invalid identifier '"@ + name + "': contains invalid character '"@.push(
            name[first_invalid(name)],
        ) + "'"@
    }
}

/// A name between two double quotes.
pub open spec fn quoted(name: Seq<char>) -> Seq<char> {
    seq!['"'] + name + seq!['"']
}

/// A quoted schema, a dot, a quoted table.
pub open spec fn table_ref(schema: Seq<char>, table: Seq<char>) -> Seq<char> {
    quoted(schema) + seq!['.'] + quoted(table)
}

/// What `first_invalid` means: everything before it is an identifier
/// character, and the character at it, if there is one, is not.
pub proof fn lemma_first_invalid(name: Seq<char>)
    ensures
        0 <= first_invalid(name) <= name.len(),
        forall|i: int| 0 <= i < first_invalid(name) ==> identifier_char(#[trigger] name[i]),
        first_invalid(name) < name.len() ==> !identifier_char(name[first_invalid(name)]),
    decreases name.len(),
{
    if name.len() > 0 && identifier_char(name[0]) {
        let rest = name.drop_first();
        lemma_first_invalid(rest);
        assert forall|i: int| 0 <= i < first_invalid(name) implies identifier_char(
            #[trigger] name[i],
        ) by {
            if i > 0 {
                assert(name[i] == rest[i - 1]);
            }
        }
        if first_invalid(name) < name.len() {
            assert(name[first_invalid(name)] == rest[first_invalid(rest)]);
        }
    }
}

/// If the characters before `k` are all identifier characters and the one at
/// `k` is not, then `k` is the first invalid place.
pub proof fn lemma_first_invalid_is(name: Seq<char>, k: int)
    requires
        0 <= k < name.len(),
        forall|i: int| 0 <= i < k ==> identifier_char(#[trigger] name[i]),
        !identifier_char(name[k]),
    ensures
        first_invalid(name) == k,
{
    lemma_first_invalid(name);
    let f = first_invalid(name);
    if f < k {
        assert(identifier_char(name[f]));
    } else if f > k {
        assert(identifier_char(name[k]));
    }
}

fn invalid_config(text: &str) -> (e: AppError)
    ensures
        e@ == ErrorView::InvalidConfig(text@),
{
    AppError::InvalidConfig(String::from_str(text))
}

/// Validates a schema, table or column name.
///
/// Returns the name itself when it is accepted, and otherwise an
/// `InvalidConfig` error whose text says what was wrong with it.
pub fn validate_identifier(name: &str) -> (res: Result<&str, AppError>)
    ensures
        res is Ok <==> valid_identifier(name@),
        res matches Ok(same) ==> same@ == name@,
        res matches Err(e) ==> e@ == ErrorView::InvalidConfig(rejection_text(name@)),
{
    let len = name.unicode_len();
    if len == 0 {
        return Err(invalid_config("Identifier cannot be empty"));
    }
    if len > MAX_IDENTIFIER_CHARS {
        return Err(invalid_config("Identifier too long (max 128 characters)"));
    }
    let first = name.get_char(0);
    if !char_is_alphabetic(first) && first != '_' {
        let mut text = String::from_str("Invalid identifier '");
        text.append(name);
        text.append("': must start with a letter or underscore");
        assert(text@ =~= rejection_text(name@));
        return Err(AppError::InvalidConfig(text));
    }
    let mut i: usize = 0;
    while i < len
        invariant
            len == name@.len(),
            0 < len <= MAX_IDENTIFIER_CHARS,
            leading_char(name@[0]),
            0 <= i <= len,
            forall|j: int| 0 <= j < i ==> identifier_char(#[trigger] name@[j]),
        decreases len - i,
    {
        let c = name.get_char(i);
        if !char_is_alphanumeric(c) && c != '_' {
            proof {
                lemma_first_invalid_is(name@, i as int);
            }
            let mut text = String::from_str("Invalid identifier '");
            text.append(name);
            text.append("': contains invalid character '");
            push_char(&mut text, c);
            text.append("'");
            assert(text@ =~= rejection_text(name@));
            return Err(AppError::InvalidConfig(text));
        }
        i += 1;
    }
    Ok(name)
}

/// Wraps a name in double quotes. Meant for names that
/// [`validate_identifier`] has accepted: nothing is escaped.
pub fn quote_identifier(name: &str) -> (out: String)
    ensures
        out@ == quoted(name@),
{
    proof {
        reveal_strlit("\"");
    }
    let mut out = String::from_str("\"");
    out.append(name);
    out.append("\"");
    assert(out@ =~= quoted(name@));
    out
}

/// Every accepted name is quoted into itself between exactly one pair of
/// double quotes: the quotes stand first and last, the name stands unchanged
/// between them, and no further double quote occurs in it.
pub proof fn lemma_accepted_name_quotes_cleanly(name: Seq<char>)
    requires
        valid_identifier(name),
    ensures
        quoted(name).len() == name.len() + 2,
        quoted(name).first() == '"',
        quoted(name).last() == '"',
        quoted(name).subrange(1, name.len() as int + 1) == name,
        forall|i: int| 0 <= i < name.len() ==> name[i] != '"',
{
    assert(quoted(name).subrange(1, name.len() as int + 1) =~= name);
    assert forall|i: int| 0 <= i < name.len() implies name[i] != '"' by {
        assert(identifier_char(name[i]));
    }
}

/// The whitespace of ASCII: space, tab, line feed, vertical tab, form feed
/// and carriage return.
pub open spec fn ascii_whitespace(c: char) -> bool {
    c == ' ' || c == '\t' || c == '\n' || c == '\r' || c == '\x0b' || c == '\x0c'
}

/// A character that no identifier may hold: a statement separator, a quote of
/// either kind, or ASCII whitespace.
pub open spec fn forbidden_char(c: char) -> bool {
    c == ';' || c == '"' || c == '\'' || ascii_whitespace(c)
}

/// A name that holds a semicolon, a double quote, an apostrophe or ASCII
/// whitespace anywhere, or that starts with an ASCII digit, is refused.
pub proof fn lemma_dangerous_names_are_refused(name: Seq<char>)
    requires
        (exists|i: int| 0 <= i < name.len() && forbidden_char(#[trigger] name[i])) || (name.len()
            > 0 && ascii_digit(name[0])),
    ensures
        !valid_identifier(name),
{
    if name.len() > 0 && ascii_digit(name[0]) {
        assert(!leading_char(name[0]));
    } else {
        let i = choose|i: int| 0 <= i < name.len() && forbidden_char(#[trigger] name[i]);
        assert(!identifier_char(name[i]));
    }
}

/// Validates a name and quotes it.
pub fn safe_identifier(name: &str) -> (res: Result<String, AppError>)
    ensures
        res is Ok <==> valid_identifier(name@),
        res matches Ok(out) ==> out@ == quoted(name@),
        res matches Err(e) ==> e@ == ErrorView::InvalidConfig(rejection_text(name@)),
{
    match validate_identifier(name) {
        Ok(_) => Ok(quote_identifier(name)),
        Err(e) => Err(e),
    }
}

/// Validates and quotes a schema name and a table name and joins them with a
/// dot. The schema is looked at first: if both are refused, the error speaks
/// of the schema.
pub fn safe_table_ref(schema: &str, table: &str) -> (res: Result<String, AppError>)
    ensures
        res is Ok <==> valid_identifier(schema@) && valid_identifier(table@),
        res matches Ok(out) ==> out@ == table_ref(schema@, table@),
        res matches Err(e) ==> e@ == table_refusal(schema@, table@),
{
    let safe_schema = match safe_identifier(schema) {
        Ok(s) => s,
        Err(e) => { return Err(e); },
    };
    let safe_table = match safe_identifier(table) {
        Ok(s) => s,
        Err(e) => { return Err(e); },
    };
    proof {
        reveal_strlit(".");
    }
    let mut out = safe_schema;
    out.append(".");
    out.append(safe_table.as_str());
    assert(out@ =~= table_ref(schema@, table@));
    Ok(out)
}

/// The place of the first name of a list that is no valid identifier, or the
/// length of the list if all are.
pub open spec fn first_refused(names: Seq<Seq<char>>) -> int
    decreases names.len(),
{
    if names.len() == 0 {
        0
    } else if !valid_identifier(names[0]) {
        0
    } else {
        1 + first_refused(names.drop_first())
    }
}

/// Whether every name of a list is a valid identifier.
pub open spec fn all_valid(names: Seq<Seq<char>>) -> bool {
    forall|i: int| 0 <= i < names.len() ==> valid_identifier(#[trigger] names[i])
}

/// What `first_refused` means.
pub proof fn lemma_first_refused(names: Seq<Seq<char>>)
    ensures
        0 <= first_refused(names) <= names.len(),
        forall|i: int| 0 <= i < first_refused(names) ==> valid_identifier(#[trigger] names[i]),
        first_refused(names) < names.len() ==> !valid_identifier(names[first_refused(names)]),
        all_valid(names) <==> first_refused(names) == names.len(),
    decreases names.len(),
{
    if names.len() > 0 && valid_identifier(names[0]) {
        let rest = names.drop_first();
        lemma_first_refused(rest);
        assert forall|i: int| 0 <= i < first_refused(names) implies valid_identifier(
            #[trigger] names[i],
        ) by {
            if i > 0 {
                assert(names[i] == rest[i - 1]);
            }
        }
        if first_refused(names) < names.len() {
            assert(names[first_refused(names)] == rest[first_refused(rest)]);
        }
    }
}

/// If the names before `k` are valid and the one at `k` is not, `k` is the
/// first refused place.
pub proof fn lemma_first_refused_is(names: Seq<Seq<char>>, k: int)
    requires
        0 <= k < names.len(),
        forall|i: int| 0 <= i < k ==> valid_identifier(#[trigger] names[i]),
        !valid_identifier(names[k]),
    ensures
        first_refused(names) == k,
{
    lemma_first_refused(names);
    let f = first_refused(names);
    if f < k {
        assert(valid_identifier(names[f]));
    } else if f > k {
        assert(valid_identifier(names[k]));
    }
}

/// The error that a list with a refused name gives: the refusal of the first
/// such name.
pub open spec fn refusal(names: Seq<Seq<char>>) -> ErrorView {
    ErrorView::InvalidConfig(rejection_text(names[first_refused(names)]))
}

/// Each name of a list between double quotes.
pub open spec fn quoted_each(names: Seq<Seq<char>>) -> Seq<Seq<char>> {
    Seq::new(names.len(), |i: int| quoted(names[i]))
}

/// Validates and quotes each name of a list. Fails on the first name that is
/// refused.
pub fn safe_identifiers(names: &Vec<String>) -> (res: Result<Vec<String>, AppError>)
    ensures
        res is Ok <==> all_valid(texts(names@)),
        res matches Ok(out) ==> texts(out@) == quoted_each(texts(names@)),
        res matches Err(e) ==> e@ == refusal(texts(names@)),
{
    let mut out: Vec<String> = Vec::new();
    let mut i: usize = 0;
    while i < names.len()
        invariant
            0 <= i <= names@.len(),
            out@.len() == i,
            forall|j: int| 0 <= j < i ==> valid_identifier(#[trigger] texts(names@)[j]),
            forall|j: int| 0 <= j < i ==> (#[trigger] out@[j])@ == quoted(names@[j]@),
        decreases names@.len() - i,
    {
        match safe_identifier(names[i].as_str()) {
            Ok(q) => {
                out.push(q);
            },
            Err(e) => {
                proof {
                    assert(texts(names@)[i as int] == names@[i as int]@);
                    lemma_first_refused_is(texts(names@), i as int);
                    lemma_first_refused(texts(names@));
                }
                return Err(e);
            },
        }
        assert(texts(names@)[i as int] == names@[i as int]@);
        i += 1;
    }
    proof {
        assert(texts(out@) =~= quoted_each(texts(names@)));
    }
    Ok(out)
}

/// How a list of names made of two parts is refused: by the first part if it
/// holds a refused name, else by the second.
pub proof fn lemma_first_refused_concat(head: Seq<Seq<char>>, tail: Seq<Seq<char>>)
    ensures
        all_valid(head + tail) <==> all_valid(head) && all_valid(tail),
        all_valid(head) ==> first_refused(head + tail) == head.len() + first_refused(tail),
        !all_valid(head) ==> first_refused(head + tail) == first_refused(head),
        !all_valid(head + tail) ==> refusal(head + tail) == (if all_valid(head) {
            refusal(tail)
        } else {
            refusal(head)
        }),
{
    let all = head + tail;
    lemma_first_refused(head);
    lemma_first_refused(tail);
    lemma_first_refused(all);
    assert forall|i: int| 0 <= i < head.len() implies all[i] == head[i] by {}
    assert forall|i: int| 0 <= i < tail.len() implies all[head.len() + i] == tail[i] by {}
    if all_valid(head) {
        let k = first_refused(tail);
        if k < tail.len() {
            assert forall|i: int| 0 <= i < head.len() + k implies valid_identifier(
                #[trigger] all[i],
            ) by {
                if i < head.len() {
                    assert(valid_identifier(head[i]));
                } else {
                    assert(all[i] == tail[i - head.len()]);
                    assert(valid_identifier(tail[i - head.len()]));
                }
            }
            assert(all[head.len() + k] == tail[k]);
            lemma_first_refused_is(all, head.len() + k);
        } else {
            assert forall|i: int| 0 <= i < all.len() implies valid_identifier(
                #[trigger] all[i],
            ) by {
                if i < head.len() {
                    assert(valid_identifier(head[i]));
                } else {
                    assert(all[i] == tail[i - head.len()]);
                    assert(valid_identifier(tail[i - head.len()]));
                }
            }
        }
    } else {
        let k = first_refused(head);
        assert forall|i: int| 0 <= i < k implies valid_identifier(#[trigger] all[i]) by {
            assert(valid_identifier(head[i]));
        }
        assert(all[k] == head[k]);
        lemma_first_refused_is(all, k);
    }
    if all_valid(all) {
        assert forall|i: int| 0 <= i < head.len() implies valid_identifier(
            #[trigger] head[i],
        ) by {
            assert(valid_identifier(all[i]));
        }
        assert forall|i: int| 0 <= i < tail.len() implies valid_identifier(
            #[trigger] tail[i],
        ) by {
            assert(valid_identifier(all[head.len() + i]));
        }
    }
}

/// The error of a table reference with a refused part: the schema is looked
/// at first.
pub open spec fn table_refusal(schema: Seq<char>, table: Seq<char>) -> ErrorView {
    ErrorView::InvalidConfig(
        if !valid_identifier(schema) {
            rejection_text(schema)
        } else {
            rejection_text(table)
        },
    )
}

/// A schema and a table are refused as the list of the two is.
pub proof fn lemma_table_refusal(schema: Seq<char>, table: Seq<char>)
    ensures
        all_valid(seq![schema, table]) <==> valid_identifier(schema) && valid_identifier(table),
        !all_valid(seq![schema, table]) ==> refusal(seq![schema, table]) == table_refusal(
            schema,
            table,
        ),
{
    let pair = seq![schema, table];
    lemma_first_refused(pair);
    assert(pair[0] == schema && pair[1] == table);
    if !valid_identifier(schema) {
        lemma_first_refused_is(pair, 0);
    } else if !valid_identifier(table) {
        lemma_first_refused_is(pair, 1);
    } else {
        assert forall|i: int| 0 <= i < pair.len() implies valid_identifier(#[trigger] pair[i]) by {}
    }
}

} // verus!

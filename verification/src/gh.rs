//! What `gh` writes: records on lines, their fields between tabs.
//!
//! A line end, a tab, a carriage return or a backslash inside a field is written as a
//! backslash and a letter, so that a record stays on one line.

use vstd::prelude::*;

use crate::error::Error;
use crate::text::{
    join, lemma_join_without, lemma_split_join, pieces_of, split, split_chars, text_of_chars, texts,
};

verus! {

broadcast use crate::text::lemma_texts_push;

/// The character that a backslash and another character stand for, where they stand for one.
pub open spec fn meant_by(c: char) -> Option<char> {
    if c == 'n' {
        Some('\n')
    } else if c == 't' {
        Some('\t')
    } else if c == 'r' {
        Some('\r')
    } else if c == '\\' {
        Some('\\')
    } else {
        None
    }
}

/// A field as it was before it was written. A backslash that stands for nothing is kept.
pub open spec fn unescaped(field: Seq<char>) -> Seq<char>
    decreases field.len(),
{
    if field.len() == 0 {
        field
    } else if field[0] == '\\' && field.len() > 1 && meant_by(field[1]) is Some {
        seq![meant_by(field[1])->0] + unescaped(field.skip(2))
    } else {
        seq![field[0]] + unescaped(field.skip(1))
    }
}

/// A field as it is written.
pub open spec fn escaped(field: Seq<char>) -> Seq<char>
    decreases field.len(),
{
    if field.len() == 0 {
        field
    } else {
        let first = if field[0] == '\n' {
            seq!['\\', 'n']
        } else if field[0] == '\t' {
            seq!['\\', 't']
        } else if field[0] == '\r' {
            seq!['\\', 'r']
        } else if field[0] == '\\' {
            seq!['\\', '\\']
        } else {
            seq![field[0]]
        };
        first + escaped(field.skip(1))
    }
}

/// The fields of a record.
pub open spec fn fields_of(record: Seq<char>) -> Seq<Seq<char>> {
    split(record, '\t').map_values(|field: Seq<char>| unescaped(field))
}

/// A record as it is written.
pub open spec fn record_of(fields: Seq<Seq<char>>) -> Seq<char> {
    join(fields.map_values(|field: Seq<char>| escaped(field)), "\t"@)
}

/// Reads a field.
pub fn unescape(field: &[char]) -> (text: Vec<char>)
    ensures
        text@ == unescaped(field@),
{
    let mut text: Vec<char> = Vec::new();
    let mut i: usize = 0;
    proof {
        assert(field@.skip(0) =~= field@);
        assert(text@ + unescaped(field@) =~= unescaped(field@));
    }
    while i < field.len()
        invariant
            i <= field@.len(),
            text@ + unescaped(field@.skip(i as int)) == unescaped(field@),
        decreases field@.len() - i,
    {
        let ghost rest = field@.skip(i as int);
        let ghost before = text@;
        assert(rest[0] == field@[i as int]);
        if field[i] == '\\' && i + 1 < field.len() {
            assert(rest[1] == field@[i + 1]);
            assert(rest.skip(2) =~= field@.skip(i + 2));
            let meant = match field[i + 1] {
                'n' => Some('\n'),
                't' => Some('\t'),
                'r' => Some('\r'),
                '\\' => Some('\\'),
                _ => None,
            };
            if let Some(c) = meant {
                text.push(c);
                i += 2;
                assert(text@ + unescaped(field@.skip(i as int)) =~= before + unescaped(rest));
                continue;
            }
        }
        assert(rest.skip(1) =~= field@.skip(i + 1));
        text.push(field[i]);
        i += 1;
        assert(text@ + unescaped(field@.skip(i as int)) =~= before + unescaped(rest));
    }
    assert(text@ =~= unescaped(field@));
    text
}

/// Cuts a record into its fields. A record with another number of fields is an error and not
/// passed over.
pub fn split_tsv(record: &[char], expected: usize) -> (fields: Result<Vec<String>, Error>)
    ensures
        match fields {
            Ok(fields) => split(record@, '\t').len() == expected && texts(fields@) == fields_of(
                record@,
            ),
            Err(error) => split(record@, '\t').len() != expected && (
            error matches Error::GhOutputMalformed { expected: asked, found } && asked == expected
                && found == split(record@, '\t').len()),
        },
{
    let pieces = split_chars(record, '\t');
    assert(pieces_of(pieces@).len() == pieces@.len());
    if pieces.len() != expected {
        return Err(Error::GhOutputMalformed { expected, found: pieces.len() });
    }
    let ghost all = fields_of(record@);
    let mut fields: Vec<String> = Vec::new();
    let mut i: usize = 0;
    assert(texts(fields@) =~= all.take(0));
    while i < pieces.len()
        invariant
            i <= pieces@.len(),
            pieces_of(pieces@) == split(record@, '\t'),
            all == fields_of(record@),
            all.len() == pieces@.len(),
            texts(fields@) == all.take(i as int),
        decreases pieces@.len() - i,
    {
        let field = text_of_chars(unescape(pieces[i].as_slice()).as_slice());
        assert(pieces_of(pieces@)[i as int] == pieces@[i as int]@);
        assert(field@ == all[i as int]);
        fields.push(field);
        i += 1;
        assert(texts(fields@) =~= all.take(i as int));
    }
    assert(all.take(i as int) =~= all);
    Ok(fields)
}

/// What was written is read back: a field keeps its line ends, tabs and backslashes.
pub proof fn law_a_field_survives(field: Seq<char>)
    ensures
        unescaped(escaped(field)) == field,
    decreases field.len(),
{
    if field.len() == 0 {
        assert(unescaped(escaped(field)) =~= field);
    } else {
        let rest = field.skip(1);
        law_a_field_survives(rest);
        let written = escaped(field);
        assert(field =~= seq![field[0]] + rest);
        if field[0] == '\n' || field[0] == '\t' || field[0] == '\r' || field[0] == '\\' {
            assert(written[0] == '\\');
            assert(meant_by(written[1]) == Some(field[0]));
            assert(written.skip(2) =~= escaped(rest));
        } else {
            assert(written[0] == field[0]);
            assert(written.skip(1) =~= escaped(rest));
        }
    }
}

/// A field as it is written holds no tab and no line end.
pub proof fn law_a_field_stays_on_its_line(field: Seq<char>)
    ensures
        !escaped(field).contains('\t'),
        !escaped(field).contains('\n'),
        !escaped(field).contains('\r'),
    decreases field.len(),
{
    if field.len() > 0 {
        law_a_field_stays_on_its_line(field.skip(1));
        let rest = escaped(field.skip(1));
        let written = escaped(field);
        let n = written.len() - rest.len();
        assert forall|i: int| 0 <= i < written.len() implies written[i] != '\t' && written[i]
            != '\n' && written[i] != '\r' by {
            if i >= n {
                assert(written[i] == rest[i - n]);
                assert(rest.contains(rest[i - n]));
            }
        }
    }
}

/// What was written is read back: a record keeps its fields.
pub proof fn law_a_record_survives(fields: Seq<Seq<char>>)
    requires
        fields.len() > 0,
    ensures
        fields_of(record_of(fields)) == fields,
{
    let written = fields.map_values(|field: Seq<char>| escaped(field));
    assert forall|i: int| 0 <= i < written.len() implies !(#[trigger] written[i]).contains('\t') by {
        law_a_field_stays_on_its_line(fields[i]);
    }
    reveal_strlit("\t");
    assert("\t"@ =~= seq!['\t']);
    lemma_split_join(written, '\t');
    let read = fields_of(record_of(fields));
    assert(read.len() == fields.len());
    assert forall|i: int| 0 <= i < read.len() implies read[i] == fields[i] by {
        law_a_field_survives(fields[i]);
    }
    assert(read =~= fields);
}

/// A record stays on one line, whatever its fields hold.
pub proof fn law_a_record_stays_on_one_line(fields: Seq<Seq<char>>)
    ensures
        !record_of(fields).contains('\n'),
        !record_of(fields).contains('\r'),
{
    let written = fields.map_values(|field: Seq<char>| escaped(field));
    reveal_strlit("\t");
    assert forall|i: int| 0 <= i < written.len() implies !(#[trigger] written[i]).contains('\n')
        && !written[i].contains('\r') by {
        law_a_field_stays_on_its_line(fields[i]);
    }
    assert(!"\t"@.contains('\n'));
    assert(!"\t"@.contains('\r'));
    lemma_join_without(written, "\t"@, '\n');
    lemma_join_without(written, "\t"@, '\r');
}

/// A field is read from its start: a backslash and a letter that stands for something give that,
/// and any other character gives itself; what follows is read as it would be alone.
pub proof fn law_an_escape_gives_what_it_stands_for(
    field: &[char],
    rest: &[char],
    c: char,
    text: Vec<char>,
    tail: Vec<char>,
)
    requires
        call_ensures(unescape, (field,), text),
        call_ensures(unescape, (rest,), tail),
    ensures
        field@ == seq!['\\', 'n'] + rest@ ==> text@ == seq!['\n'] + tail@,
        field@ == seq!['\\', 't'] + rest@ ==> text@ == seq!['\t'] + tail@,
        field@ == seq!['\\', 'r'] + rest@ ==> text@ == seq!['\r'] + tail@,
        field@ == seq!['\\', '\\'] + rest@ ==> text@ == seq!['\\'] + tail@,
        c != '\\' && field@ == seq![c] + rest@ ==> text@ == seq![c] + tail@,
{
    if c != '\\' && field@ == seq![c] + rest@ {
        assert(field@.skip(1) =~= rest@);
    }
    if field@.len() >= 2 && field@[0] == '\\' {
        let n = seq!['\\', 'n'] + rest@;
        let t = seq!['\\', 't'] + rest@;
        let r = seq!['\\', 'r'] + rest@;
        let b = seq!['\\', '\\'] + rest@;
        assert(n.skip(2) =~= rest@);
        assert(t.skip(2) =~= rest@);
        assert(r.skip(2) =~= rest@);
        assert(b.skip(2) =~= rest@);
    }
}

/// A record is taken if and only if it has the fields that were asked for, and then each of them
/// is there.
pub proof fn law_a_record_has_the_fields_that_were_asked_for(
    record: &[char],
    expected: usize,
    fields: Result<Vec<String>, Error>,
)
    requires
        call_ensures(split_tsv, (record, expected), fields),
    ensures
        fields is Ok <==> split(record@, '\t').len() == expected,
        fields matches Ok(fields) ==> fields@.len() == expected,
{
    if let Ok(list) = fields {
        assert(texts(list@).len() == list@.len());
    }
}

/// A record with other fields than were asked for says how many were and how many came.
pub proof fn law_a_wrong_record_tells_both_counts(
    record: &[char],
    expected: usize,
    error: Error,
)
    requires
        call_ensures(split_tsv, (record, expected), Err(error)),
    ensures
        error matches Error::GhOutputMalformed { expected: asked, found } && asked == expected && found
            == split(record@, '\t').len() && asked != found,
{
}

} // verus!

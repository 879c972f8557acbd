//! From the typed rows of a result to records of text.

use vstd::prelude::*;
use crate::cell::{normal_text, Cell};
use crate::errors::SessionError;
use crate::record::{distinct_entries, holds_name, lemma_put_keeps_distinct, place_of, put_entry, Entries, Record};

verus! {

/// One column of a row: the column's name and the cell under it.
#[derive(Clone, Debug, PartialEq, Eq)]
pub struct Field {
    pub name: String,
    pub cell: Cell,
}

/// Every cell of the row has a text.
pub open spec fn row_convertible(row: Seq<Field>) -> bool {
    forall|c: int| 0 <= c < row.len() ==> normal_text((#[trigger] row[c]).cell@) is Some
}

/// Every cell of the result set has a text.
pub open spec fn set_convertible(set: Seq<Vec<Field>>) -> bool {
    forall|r: int| 0 <= r < set.len() ==> row_convertible((#[trigger] set[r])@)
}

/// Every cell of every result set has a text.
pub open spec fn convertible(sets: Seq<Vec<Vec<Field>>>) -> bool {
    forall|s: int| 0 <= s < sets.len() ==> set_convertible((#[trigger] sets[s])@)
}

/// The record of a row: the text of each cell written under the name of its
/// column, column by column. `None` where a cell has no text.
pub open spec fn row_record(row: Seq<Field>) -> Option<Entries>
    decreases row.len(),
{
    if row.len() == 0 {
        Some(Seq::empty())
    } else {
        match (row_record(row.drop_last()), normal_text(row.last().cell@)) {
            (Some(entries), Some(text)) => Some(put_entry(entries, row.last().name@, text)),
            _ => None,
        }
    }
}

/// The records of the rows of a result set, in order.
pub open spec fn set_records(set: Seq<Vec<Field>>) -> Seq<Entries> {
    set.map_values(|row: Vec<Field>| row_record(row@).unwrap())
}

/// The records of every result set, in order.
pub open spec fn normalized(sets: Seq<Vec<Vec<Field>>>) -> Seq<Seq<Entries>> {
    sets.map_values(|set: Vec<Vec<Field>>| set_records(set@))
}

/// The entries of the records of a vector.
pub open spec fn records_view(records: Seq<Record>) -> Seq<Entries> {
    records.map_values(|record: Record| record@)
}

/// The entries of the records of every vector.
pub open spec fn sets_view(sets: Seq<Vec<Record>>) -> Seq<Seq<Entries>> {
    sets.map_values(|records: Vec<Record>| records_view(records@))
}

/// The place of the first column of the row that carries the name.
pub open spec fn first_column(row: Seq<Field>, name: Seq<char>) -> int {
    choose|c: int|
        0 <= c < row.len() && (#[trigger] row[c]).name@ == name && forall|b: int|
            0 <= b < c ==> (#[trigger] row[b]).name@ != name
}

/// The place of the last column of the row that carries the name.
pub open spec fn last_column(row: Seq<Field>, name: Seq<char>) -> int {
    choose|c: int|
        0 <= c < row.len() && (#[trigger] row[c]).name@ == name && forall|b: int|
            c < b < row.len() ==> (#[trigger] row[b]).name@ != name
}

/// Some column of the row carries the name.
pub open spec fn names_column(row: Seq<Field>, name: Seq<char>) -> bool {
    exists|c: int| 0 <= c < row.len() && (#[trigger] row[c]).name@ == name
}

/// No two columns of the row carry the same name.
pub open spec fn distinct_columns(row: Seq<Field>) -> bool {
    forall|a: int, b: int|
        0 <= a < b < row.len() ==> (#[trigger] row[a]).name@ != (#[trigger] row[b]).name@
}

/// A row has a record exactly when each of its cells has a text.
pub proof fn lemma_record_exists(row: Seq<Field>)
    ensures
        row_record(row) is Some <==> row_convertible(row),
    decreases row.len(),
{
    if row.len() > 0 {
        let front = row.drop_last();
        lemma_record_exists(front);
        if row_convertible(row) {
            assert forall|c: int| 0 <= c < front.len() implies normal_text(
                (#[trigger] front[c]).cell@,
            ) is Some by {
                assert(front[c] == row[c]);
            }
            assert(row.last() == row[row.len() - 1]);
        }
        if row_record(row) is Some {
            assert forall|c: int| 0 <= c < row.len() implies normal_text(
                (#[trigger] row[c]).cell@,
            ) is Some by {
                if c < front.len() {
                    assert(front[c] == row[c]);
                }
            }
        }
    }
}

/// Where a column carries a name, one column is the first to carry it and one
/// is the last.
pub proof fn lemma_column_places(row: Seq<Field>, name: Seq<char>)
    requires
        names_column(row, name),
    ensures
        0 <= first_column(row, name) <= last_column(row, name) < row.len(),
        row[first_column(row, name)].name@ == name,
        row[last_column(row, name)].name@ == name,
        forall|b: int| 0 <= b < first_column(row, name) ==> (#[trigger] row[b]).name@ != name,
        forall|b: int|
            last_column(row, name) < b < row.len() ==> (#[trigger] row[b]).name@ != name,
{
    let some = choose|c: int| 0 <= c < row.len() && (#[trigger] row[c]).name@ == name;
    lemma_first_before(row, name, some);
    lemma_last_after(row, name, some);
}

/// Some column at or before `at` carries the name and none before it does.
proof fn lemma_first_before(row: Seq<Field>, name: Seq<char>, at: int)
    requires
        0 <= at < row.len(),
        row[at].name@ == name,
    ensures
        0 <= first_column(row, name) <= at,
        row[first_column(row, name)].name@ == name,
        forall|b: int| 0 <= b < first_column(row, name) ==> (#[trigger] row[b]).name@ != name,
    decreases at,
{
    if exists|b: int| 0 <= b < at && (#[trigger] row[b]).name@ == name {
        let b = choose|b: int| 0 <= b < at && (#[trigger] row[b]).name@ == name;
        lemma_first_before(row, name, b);
    } else {
        assert(0 <= at < row.len() && row[at].name@ == name && forall|b: int|
            0 <= b < at ==> (#[trigger] row[b]).name@ != name);
        let first = first_column(row, name);
        if first > at {
            assert(row[at].name@ != name);
        }
    }
}

/// Some column at or after `at` carries the name and none after it does.
proof fn lemma_last_after(row: Seq<Field>, name: Seq<char>, at: int)
    requires
        0 <= at < row.len(),
        row[at].name@ == name,
    ensures
        at <= last_column(row, name) < row.len(),
        row[last_column(row, name)].name@ == name,
        forall|b: int|
            last_column(row, name) < b < row.len() ==> (#[trigger] row[b]).name@ != name,
    decreases row.len() - at,
{
    if exists|b: int| at < b < row.len() && (#[trigger] row[b]).name@ == name {
        let b = choose|b: int| at < b < row.len() && (#[trigger] row[b]).name@ == name;
        lemma_last_after(row, name, b);
    } else {
        assert(0 <= at < row.len() && row[at].name@ == name && forall|b: int|
            at < b < row.len() ==> (#[trigger] row[b]).name@ != name);
        let last = last_column(row, name);
        if last < at {
            assert(row[at].name@ != name);
        }
    }
}

/// The column at `at` is the first to carry its name.
proof fn lemma_first_is(row: Seq<Field>, name: Seq<char>, at: int)
    requires
        0 <= at < row.len(),
        row[at].name@ == name,
        forall|b: int| 0 <= b < at ==> (#[trigger] row[b]).name@ != name,
    ensures
        first_column(row, name) == at,
{
    lemma_first_before(row, name, at);
}

/// The column at `at` is the last to carry its name.
proof fn lemma_last_is(row: Seq<Field>, name: Seq<char>, at: int)
    requires
        0 <= at < row.len(),
        row[at].name@ == name,
        forall|b: int| at < b < row.len() ==> (#[trigger] row[b]).name@ != name,
    ensures
        last_column(row, name) == at,
{
    lemma_last_after(row, name, at);
}

/// The entries are the record of the row: they hold the names of the row's
/// columns, each once, in the order in which the names first occur in the row,
/// and under each name the text of the last cell that the name stands over.
pub open spec fn is_record_of(entries: Entries, row: Seq<Field>) -> bool {
    &&& distinct_entries(entries)
    &&& entries.len() <= row.len()
    &&& forall|name: Seq<char>|
        #![trigger holds_name(entries, name)]
        #![trigger names_column(row, name)]
        holds_name(entries, name) <==> names_column(row, name)
    &&& forall|i: int|
        0 <= i < entries.len() ==> Some((#[trigger] entries[i]).1) == normal_text(
            row[last_column(row, entries[i].0)].cell@,
        )
    &&& forall|i: int, j: int|
        0 <= i < j < entries.len() ==> first_column(row, (#[trigger] entries[i]).0) < first_column(
            row,
            (#[trigger] entries[j]).0,
        )
}

/// The record of a row whose cells all have a text holds the names of the
/// row's columns, each once, in the order in which the names first occur in
/// the row, and under each name the text of the last cell that the name stands
/// over.
pub proof fn law_record_of_row(row: Seq<Field>)
    requires
        row_convertible(row),
    ensures
        row_record(row) is Some,
        is_record_of(row_record(row).unwrap(), row),
    decreases row.len(),
{
    lemma_record_exists(row);
    let entries = row_record(row).unwrap();
    if row.len() == 0 {
        assert(entries.len() == 0);
        assert forall|name: Seq<char>| !holds_name(entries, name) && !names_column(row, name) by {}
    } else {
        let front = row.drop_last();
        let end = row.len() - 1;
        let name = row.last().name@;
        assert(row.last() == row[end]);
        assert forall|c: int| 0 <= c < front.len() implies (#[trigger] front[c]) == row[c] by {}
        assert(row_convertible(front)) by {
            assert forall|c: int| 0 <= c < front.len() implies normal_text(
                (#[trigger] front[c]).cell@,
            ) is Some by {
                assert(front[c] == row[c]);
            }
        }
        law_record_of_row(front);
        let before = row_record(front).unwrap();
        let text = normal_text(row.last().cell@).unwrap();
        assert(entries == put_entry(before, name, text));
        lemma_put_keeps_distinct(before, name, text);
        lemma_last_is(row, name, end);
        // A name that the front carries keeps its first column, and keeps its
        // last column unless the row ends with it.
        assert forall|other: Seq<char>| names_column(front, other) implies names_column(row, other)
            && first_column(row, other) == first_column(front, other) && (other != name
            ==> last_column(row, other) == last_column(front, other)) by {
            lemma_column_places(front, other);
            let first = first_column(front, other);
            let last = last_column(front, other);
            assert(row[first] == front[first]);
            assert(row[last] == front[last]);
            assert forall|b: int| 0 <= b < first implies (#[trigger] row[b]).name@ != other by {
                assert(row[b] == front[b]);
            }
            lemma_first_is(row, other, first);
            if other != name {
                assert forall|b: int| last < b < row.len() implies (#[trigger] row[b]).name@
                    != other by {
                    if b < end {
                        assert(row[b] == front[b]);
                    }
                }
                lemma_last_is(row, other, last);
            }
        }
        assert forall|other: Seq<char>| names_column(row, other) implies names_column(front, other)
            || other == name by {
            let c = choose|c: int| 0 <= c < row.len() && (#[trigger] row[c]).name@ == other;
            if c < end {
                assert(front[c] == row[c]);
            }
        }
        assert(names_column(row, name));
        if holds_name(before, name) {
            let at = place_of(before, name);
            assert(entries == before.update(at, (name, text)));
            assert forall|i: int| 0 <= i < entries.len() implies (#[trigger] entries[i]).0
                == before[i].0 by {}
            assert forall|other: Seq<char>|
                #![trigger holds_name(entries, other)]
                #![trigger names_column(row, other)]
                holds_name(entries, other) <==> names_column(row, other) by {
                if holds_name(entries, other) {
                    let i = choose|i: int| 0 <= i < entries.len() && (#[trigger] entries[i]).0 == other;
                    assert(before[i].0 == other);
                    assert(holds_name(before, other));
                }
                if names_column(row, other) {
                    assert(holds_name(before, other));
                    let i = choose|i: int| 0 <= i < before.len() && (#[trigger] before[i]).0 == other;
                    assert(entries[i].0 == other);
                }
            }
            assert forall|i: int| 0 <= i < entries.len() implies Some((#[trigger] entries[i]).1)
                == normal_text(row[last_column(row, entries[i].0)].cell@) by {
                assert(before[i].0 == entries[i].0);
                assert(holds_name(before, before[i].0));
                if i == at {
                } else {
                    assert(before[i].0 != name) by {
                        if i < at {
                            assert(before[i].0 != before[at].0);
                        } else {
                            assert(before[at].0 != before[i].0);
                        }
                    }
                    let last = last_column(front, before[i].0);
                    lemma_column_places(front, before[i].0);
                    assert(row[last] == front[last]);
                }
            }
            assert forall|i: int, j: int| 0 <= i < j < entries.len() implies first_column(
                row,
                (#[trigger] entries[i]).0,
            ) < first_column(row, (#[trigger] entries[j]).0) by {
                assert(before[i].0 == entries[i].0);
                assert(before[j].0 == entries[j].0);
                assert(holds_name(before, before[i].0));
                assert(holds_name(before, before[j].0));
            }
        } else {
            assert(entries == before.push((name, text)));
            assert(!names_column(front, name));
            assert forall|b: int| 0 <= b < end implies (#[trigger] row[b]).name@ != name by {
                assert(front[b] == row[b]);
            }
            lemma_first_is(row, name, end);
            assert forall|i: int| 0 <= i < before.len() implies (#[trigger] entries[i])
                == before[i] by {}
            assert(entries[before.len() as int] == (name, text));
            assert forall|other: Seq<char>|
                #![trigger holds_name(entries, other)]
                #![trigger names_column(row, other)]
                holds_name(entries, other) <==> names_column(row, other) by {
                if holds_name(entries, other) {
                    let i = choose|i: int| 0 <= i < entries.len() && (#[trigger] entries[i]).0 == other;
                    if i < before.len() {
                        assert(before[i].0 == other);
                        assert(holds_name(before, other));
                    }
                }
                if names_column(row, other) {
                    if other != name {
                        assert(holds_name(before, other));
                        let i = choose|i: int| 0 <= i < before.len() && (#[trigger] before[i]).0 == other;
                        assert(entries[i].0 == other);
                    } else {
                        assert(entries[before.len() as int].0 == other);
                    }
                }
            }
            assert forall|i: int| 0 <= i < entries.len() implies Some((#[trigger] entries[i]).1)
                == normal_text(row[last_column(row, entries[i].0)].cell@) by {
                if i < before.len() {
                    assert(entries[i] == before[i]);
                    assert(holds_name(before, before[i].0));
                    let last = last_column(front, before[i].0);
                    lemma_column_places(front, before[i].0);
                    assert(row[last] == front[last]);
                }
            }
            assert forall|i: int, j: int| 0 <= i < j < entries.len() implies first_column(
                row,
                (#[trigger] entries[i]).0,
            ) < first_column(row, (#[trigger] entries[j]).0) by {
                assert(entries[i] == before[i]);
                assert(holds_name(before, before[i].0));
                lemma_column_places(front, before[i].0);
                if j < before.len() {
                    assert(entries[j] == before[j]);
                    assert(holds_name(before, before[j].0));
                }
            }
        }
    }
}

/// Where the names of the columns differ from each other, the record of a row
/// has one entry for each column, in the order of the columns: the column's
/// name with the text of its cell.
pub proof fn law_record_of_distinct_columns(row: Seq<Field>)
    requires
        row_convertible(row),
        distinct_columns(row),
    ensures
        row_record(row) is Some,
        row_record(row).unwrap().len() == row.len(),
        forall|c: int|
            0 <= c < row.len() ==> (#[trigger] row_record(row).unwrap()[c]) == (
                row[c].name@,
                normal_text(row[c].cell@).unwrap(),
            ),
    decreases row.len(),
{
    lemma_record_exists(row);
    if row.len() > 0 {
        let front = row.drop_last();
        let end = row.len() - 1;
        assert(row.last() == row[end]);
        assert forall|c: int| 0 <= c < front.len() implies (#[trigger] front[c]) == row[c] by {}
        assert(row_convertible(front)) by {
            assert forall|c: int| 0 <= c < front.len() implies normal_text(
                (#[trigger] front[c]).cell@,
            ) is Some by {
                assert(front[c] == row[c]);
            }
        }
        assert(distinct_columns(front)) by {
            assert forall|a: int, b: int| 0 <= a < b < front.len() implies (#[trigger] front[a]).name@
                != (#[trigger] front[b]).name@ by {
                assert(front[a] == row[a]);
                assert(front[b] == row[b]);
            }
        }
        law_record_of_distinct_columns(front);
        let before = row_record(front).unwrap();
        let name = row.last().name@;
        if holds_name(before, name) {
            let at = choose|i: int| 0 <= i < before.len() && (#[trigger] before[i]).0 == name;
            assert(before[at].0 == row[at].name@);
            assert(row[at].name@ != row[end].name@);
        }
    }
}

/// The record of a row. It fails exactly where a cell of the row has no text.
pub fn normalize_row(row: &Vec<Field>) -> (out: Result<Record, SessionError>)
    ensures
        row_convertible(row@) ==> (out matches Ok(record) && Some(record@) == row_record(row@)),
        !row_convertible(row@) ==> out matches Err(SessionError::NormalizationError),
{
    let mut record = Record::new();
    let mut c: usize = 0;
    assert(row@.take(0) =~= Seq::<Field>::empty());
    while c < row.len()
        invariant
            c <= row@.len(),
            row_record(row@.take(c as int)) == Some(record@),
        decreases row@.len() - c,
    {
        let field = &row[c];
        proof {
            assert(row@.take(c + 1).drop_last() =~= row@.take(c as int));
            assert(row@.take(c + 1).last() == row@[c as int]);
        }
        match field.cell.text() {
            Ok(text) => {
                record = record.put(field.name.clone(), text);
            },
            Err(failure) => {
                proof {
                    lemma_record_exists(row@);
                }
                return Err(failure);
            },
        }
        c += 1;
    }
    proof {
        assert(row@.take(c as int) =~= row@);
        lemma_record_exists(row@);
    }
    Ok(record)
}

/// The records of the rows of a result set, in order. It fails exactly where
/// a cell of the set has no text.
pub fn normalize_set(set: &Vec<Vec<Field>>) -> (out: Result<Vec<Record>, SessionError>)
    ensures
        set_convertible(set@) ==> (out matches Ok(records) && records_view(records@)
            == set_records(set@)),
        !set_convertible(set@) ==> out matches Err(SessionError::NormalizationError),
{
    let mut records: Vec<Record> = Vec::new();
    let mut r: usize = 0;
    while r < set.len()
        invariant
            r <= set@.len(),
            records@.len() == r,
            forall|k: int| 0 <= k < r ==> row_convertible((#[trigger] set@[k])@),
            forall|k: int| 0 <= k < r ==> Some((#[trigger] records@[k])@) == row_record(set@[k]@),
        decreases set@.len() - r,
    {
        match normalize_row(&set[r]) {
            Ok(record) => {
                records.push(record);
            },
            Err(failure) => {
                return Err(failure);
            },
        }
        r += 1;
    }
    assert(records_view(records@) =~= set_records(set@));
    Ok(records)
}

/// The records of every result set, in order. It fails exactly where a cell
/// of a set has no text.
pub fn normalize(sets: &Vec<Vec<Vec<Field>>>) -> (out: Result<Vec<Vec<Record>>, SessionError>)
    ensures
        convertible(sets@) ==> (out matches Ok(records) && sets_view(records@) == normalized(
            sets@,
        )),
        !convertible(sets@) ==> out matches Err(SessionError::NormalizationError),
{
    let mut all: Vec<Vec<Record>> = Vec::new();
    let mut s: usize = 0;
    while s < sets.len()
        invariant
            s <= sets@.len(),
            all@.len() == s,
            forall|k: int| 0 <= k < s ==> set_convertible((#[trigger] sets@[k])@),
            forall|k: int|
                0 <= k < s ==> records_view((#[trigger] all@[k])@) == set_records(sets@[k]@),
        decreases sets@.len() - s,
    {
        match normalize_set(&sets[s]) {
            Ok(records) => {
                all.push(records);
            },
            Err(failure) => {
                return Err(failure);
            },
        }
        s += 1;
    }
    assert(sets_view(all@) =~= normalized(sets@));
    Ok(all)
}

} // verus!

//! Saving `profile.toml`: how the editor's config is merged into the file.
//!
//! The config the editor sends is **merged into the existing file rather
//! than overwriting it.** Writing the config out afresh would wipe out every
//! comment and the field order, and this file is also meant to be edited by
//! hand — its comments are effectively its documentation.
//!
//! A line keeps its whitespace and comments as long as only its value
//! changes, so the merge walks the new value and **swaps values in place for
//! keys that already exist**, only removing keys that are really gone. This
//! module decides the edits from the shapes of the two sides; applying them
//! to the TOML document is the caller's part.
//!
//! Known limitation: comments are attached by position, not by content. If
//! the editor reorders sections, a comment stays put and ends up describing
//! the wrong section.

use vstd::prelude::*;

use crate::text::{owned, str_eq};

verus! {

/// What the merge reads of a JSON value from the editor.
pub enum JsonShape {
    Null,
    /// A string, number or boolean.
    Scalar,
    Array(Vec<JsonShape>),
    /// An object: its entries in order.
    Object(Vec<(String, JsonShape)>),
}

/// What the merge reads of an item already in the file.
pub enum TomlShape {
    /// A string, number, boolean or date.
    Scalar,
    /// An inline array: its elements.
    Array(Vec<TomlShape>),
    /// An inline table `{ … }`: its entries in order.
    Inline(Vec<(String, TomlShape)>),
    /// A `[table]`: its entries in order.
    Table(Vec<(String, TomlShape)>),
    /// An array of tables `[[…]]`: each table's entries.
    Tables(Vec<Vec<(String, TomlShape)>>),
}

/// An edit to a table, at the key it names.
pub enum TableEdit {
    /// Remove the key.
    Remove(String),
    /// Set the key to the new value, converted.
    Assign(String),
    /// Write the key as `[[key]]` tables: starting over if it held something
    /// else (`fresh`), cut or extended to as many tables as there are items,
    /// then each item merged into its table.
    Tables { key: String, fresh: bool, items: Vec<Vec<TableEdit>> },
    /// Update an inline array element by element, keeping its layout.
    Array { key: String, edits: Vec<ArrayEdit> },
    /// Update an inline table in place, keeping its shape and key order.
    Inline { key: String, edits: Vec<InlineEdit> },
    /// Merge into the `[key]` table; `fresh` when the key held something
    /// else or nothing, so the table starts empty.
    Table { key: String, fresh: bool, edits: Vec<TableEdit> },
}

/// An edit to an inline array.
pub enum ArrayEdit {
    /// Drop the elements from this position on.
    Truncate(usize),
    /// Append the new value's element at this position, converted.
    Push(usize),
    /// Update the inline table at this position in place.
    Inline(usize, Vec<InlineEdit>),
    /// Replace the element at this position, keeping its surrounding whitespace.
    Replace(usize),
}

/// An edit to an inline table.
pub enum InlineEdit {
    Remove(String),
    /// Update the nested inline table in place.
    Nested(String, Vec<InlineEdit>),
    /// Replace the value, keeping its surrounding whitespace.
    Replace(String),
    /// Append the key at the end, taking over the spacing before the closing brace.
    Append(String),
}

// ─────────────────────────────────────────────────────────────────────────────
// What the edits are
// ─────────────────────────────────────────────────────────────────────────────

/// Whether `key` is one of the entries' keys.
pub open spec fn has_key<T>(entries: Seq<(String, T)>, key: Seq<char>) -> bool {
    exists|i: int| 0 <= i < entries.len() && (#[trigger] entries[i]).0@ == key
}

/// The first entry under `key`.
pub open spec fn find<T>(entries: Seq<(String, T)>, key: Seq<char>) -> Option<T>
    decreases entries.len(),
{
    if entries.len() == 0 {
        None
    } else if entries[0].0@ == key {
        Some(entries[0].1)
    } else {
        find(entries.skip(1), key)
    }
}

/// The existing keys a table loses: those the new value doesn't have.
pub open spec fn stale_keys(existing: Seq<(String, TomlShape)>, new: Seq<(String, JsonShape)>) -> Seq<
    Seq<char>,
>
    decreases existing.len(),
{
    if existing.len() == 0 {
        Seq::empty()
    } else {
        let rest = stale_keys(existing.drop_last(), new);
        if has_key(new, existing.last().0@) {
            rest
        } else {
            rest.push(existing.last().0@)
        }
    }
}

/// Whether the new value is `null` under `key`.
pub open spec fn null_at(new: Seq<(String, JsonShape)>, key: Seq<char>) -> bool {
    find(new, key) == Some(JsonShape::Null)
}

/// The existing keys an inline table loses: gone, or `null` in the new value.
pub open spec fn stale_inline_keys(existing: Seq<(String, TomlShape)>, new: Seq<(String, JsonShape)>) -> Seq<
    Seq<char>,
>
    decreases existing.len(),
{
    if existing.len() == 0 {
        Seq::empty()
    } else {
        let rest = stale_inline_keys(existing.drop_last(), new);
        let k = existing.last().0@;
        if has_key(new, k) && !null_at(new, k) {
            rest
        } else {
            rest.push(k)
        }
    }
}

/// A non-empty array holding only objects: written as `[[key]]` tables,
/// far more readable than an inline array and how these files look when
/// written by hand.
pub open spec fn all_objects(items: Seq<JsonShape>) -> bool {
    items.len() > 0 && forall|i: int| 0 <= i < items.len() ==> (#[trigger] items[i]) is Object
}

/// The tables an array of tables already has, when it is one.
pub open spec fn existing_tables(ex: Option<TomlShape>) -> Seq<Vec<(String, TomlShape)>> {
    match ex {
        Some(TomlShape::Tables(ts)) => ts@,
        _ => Seq::empty(),
    }
}

/// The entries of the `i`-th existing table, or none past the end.
pub open spec fn table_at(ts: Seq<Vec<(String, TomlShape)>>, i: int) -> Seq<(String, TomlShape)> {
    if 0 <= i < ts.len() {
        ts[i]@
    } else {
        Seq::empty()
    }
}

/// `edits` merge the object `new` into a table holding `existing`: first
/// the stale keys are removed, in the file's order; then each new entry,
/// in order, gets its edit.
pub open spec fn table_plan(edits: Seq<TableEdit>, existing: Seq<(String, TomlShape)>, new: JsonShape) -> bool
    decreases new, 0nat,
{
    match new {
        JsonShape::Object(entries) => {
            let stale = stale_keys(existing, entries@);
            &&& edits.len() == stale.len() + entries@.len()
            &&& forall|i: int|
                0 <= i < stale.len() ==> (#[trigger] edits[i] matches TableEdit::Remove(k) && k@
                    == stale[i])
            &&& forall|j: int|
                0 <= j < entries@.len() ==> entry_plan(
                    #[trigger] edits[stale.len() + j],
                    find(existing, entries@[j].0@),
                    entries@[j].0@,
                    entries@[j].1,
                )
        },
        _ => false,
    }
}

/// The edit for one new entry `key: new`, given what the file holds there.
pub open spec fn entry_plan(e: TableEdit, ex: Option<TomlShape>, key: Seq<char>, new: JsonShape) -> bool
    decreases new, 1nat,
{
    match new {
        // An optional field with no value loses its key: an empty string
        // instead would read as "a path is set but the file doesn't exist".
        JsonShape::Null => e matches TableEdit::Remove(k) && k@ == key,
        JsonShape::Array(items) => if all_objects(items@) && !(ex matches Some(TomlShape::Array(_))) {
            match e {
                TableEdit::Tables { key: k, fresh, items: plans } => {
                    &&& k@ == key
                    &&& fresh == !(ex matches Some(TomlShape::Tables(_)))
                    &&& plans@.len() == items@.len()
                    &&& forall|i: int|
                        0 <= i < items@.len() ==> table_plan(
                            (#[trigger] plans@[i])@,
                            table_at(existing_tables(ex), i),
                            items@[i],
                        )
                },
                _ => false,
            }
        } else {
            match ex {
                // A plain array is updated element by element: replacing it
                // wholesale would collapse a multi-line array into one line.
                Some(TomlShape::Array(elems)) => match e {
                    TableEdit::Array { key: k, edits } => k@ == key && array_plan(
                        edits@,
                        elems@,
                        new,
                    ),
                    _ => false,
                },
                _ => e matches TableEdit::Assign(k) && k@ == key,
            }
        },
        JsonShape::Object(_) => match ex {
            // An inline table keeps its shape and key order: rewriting
            // `{ ko = "…", en = "…" }` would re-sort translations on every
            // save and bury the real change in the diff.
            Some(TomlShape::Inline(keys)) => match e {
                TableEdit::Inline { key: k, edits } => k@ == key && inline_plan(edits@, keys@, new),
                _ => false,
            },
            Some(TomlShape::Table(sub)) => match e {
                TableEdit::Table { key: k, fresh, edits } => k@ == key && !fresh && table_plan(
                    edits@,
                    sub@,
                    new,
                ),
                _ => false,
            },
            _ => match e {
                TableEdit::Table { key: k, fresh, edits } => k@ == key && fresh && table_plan(
                    edits@,
                    Seq::empty(),
                    new,
                ),
                _ => false,
            },
        },
        JsonShape::Scalar => e matches TableEdit::Assign(k) && k@ == key,
    }
}

/// `edits` update an inline array holding `elems` to the array `new`: cut
/// it to the new length if it was longer, then per element: beyond the old
/// end a push; an object over an inline table, that table updated in place;
/// anything else, a replacement.
pub open spec fn array_plan(edits: Seq<ArrayEdit>, elems: Seq<TomlShape>, new: JsonShape) -> bool
    decreases new, 0nat,
{
    match new {
        JsonShape::Array(items) => {
            let cut = elems.len() > items@.len();
            let lead: int = if cut {
                1
            } else {
                0
            };
            &&& edits.len() == lead + items@.len()
            &&& cut ==> (edits[0] matches ArrayEdit::Truncate(n) && n == items@.len())
            &&& forall|i: int|
                0 <= i < items@.len() ==> element_plan(
                    #[trigger] edits[lead + i],
                    i,
                    if i < elems.len() {
                        Some(elems[i])
                    } else {
                        None
                    },
                    items@[i],
                )
        },
        _ => false,
    }
}

pub open spec fn element_plan(e: ArrayEdit, i: int, ex: Option<TomlShape>, new: JsonShape) -> bool
    decreases new, 1nat,
{
    match ex {
        None => e matches ArrayEdit::Push(n) && n == i,
        Some(TomlShape::Inline(keys)) => match new {
            JsonShape::Object(_) => match e {
                ArrayEdit::Inline(n, edits) => n == i && inline_plan(edits@, keys@, new),
                _ => false,
            },
            _ => e matches ArrayEdit::Replace(n) && n == i,
        },
        Some(_) => e matches ArrayEdit::Replace(n) && n == i,
    }
}

/// `edits` update an inline table holding `existing` to the object `new`:
/// the keys gone (or `null`) are removed in the table's order; then each
/// non-null new entry, in order: a nested inline table under an object is
/// updated in place, an existing value is replaced, a new key is appended.
pub open spec fn inline_plan(edits: Seq<InlineEdit>, existing: Seq<(String, TomlShape)>, new: JsonShape) -> bool
    decreases new, 0nat,
{
    match new {
        JsonShape::Object(entries) => {
            let stale = stale_inline_keys(existing, entries@);
            &&& edits.len() == stale.len() + count_kept(entries@)
            &&& forall|i: int|
                0 <= i < stale.len() ==> (#[trigger] edits[i] matches InlineEdit::Remove(k) && k@
                    == stale[i])
            &&& forall|j: int|
                0 <= j < entries@.len() && !(entries@[j].1 is Null) ==> inline_entry_plan(
                    #[trigger] edits[stale.len() + count_kept(entries@.take(j)) as int],
                    find(existing, entries@[j].0@),
                    entries@[j].0@,
                    entries@[j].1,
                )
        },
        _ => false,
    }
}

pub open spec fn inline_entry_plan(e: InlineEdit, ex: Option<TomlShape>, key: Seq<char>, new: JsonShape) -> bool
    decreases new, 1nat,
{
    match ex {
        None => e matches InlineEdit::Append(k) && k@ == key,
        Some(TomlShape::Inline(keys)) => match new {
            JsonShape::Object(_) => match e {
                InlineEdit::Nested(k, edits) => k@ == key && inline_plan(edits@, keys@, new),
                _ => false,
            },
            _ => e matches InlineEdit::Replace(k) && k@ == key,
        },
        Some(_) => e matches InlineEdit::Replace(k) && k@ == key,
    }
}

/// How many entries aren't `null`.
pub open spec fn count_kept(entries: Seq<(String, JsonShape)>) -> nat
    decreases entries.len(),
{
    if entries.len() == 0 {
        0
    } else {
        count_kept(entries.drop_last()) + if entries.last().1 is Null {
            0nat
        } else {
            1nat
        }
    }
}

/// An entry that isn't `null` takes a place of its own among the kept ones.
pub proof fn lemma_count_kept_grows(entries: Seq<(String, JsonShape)>, jj: int, j: int)
    requires
        0 <= jj < j <= entries.len(),
        !(entries[jj].1 is Null),
    ensures
        count_kept(entries.take(jj)) < count_kept(entries.take(j)),
    decreases j,
{
    assert(entries.take(j).drop_last() =~= entries.take(j - 1));
    if jj < j - 1 {
        lemma_count_kept_grows(entries, jj, j - 1);
    }
}

// ─────────────────────────────────────────────────────────────────────────────
// Working the edits out
// ─────────────────────────────────────────────────────────────────────────────

/// Where the first entry under `key` sits, if any.
pub fn find_key<T>(entries: &Vec<(String, T)>, key: &String) -> (r: Option<usize>)
    ensures
        match r {
            Some(i) => i < entries.len() && find(entries@, key@) == Some(entries@[i as int].1),
            None => find(entries@, key@) is None,
        },
        r is Some <==> has_key(entries@, key@),
{
    let mut i: usize = 0;
    assert(entries@.skip(0) =~= entries@);
    while i < entries.len()
        invariant
            i <= entries.len(),
            find(entries@, key@) == find(entries@.skip(i as int), key@),
            forall|j: int| 0 <= j < i ==> (#[trigger] entries@[j]).0@ != key@,
        decreases entries.len() - i,
    {
        if str_eq(entries[i].0.as_str(), key.as_str()) {
            assert(entries@.skip(i as int)[0] == entries@[i as int]);
            return Some(i);
        }
        assert(entries@.skip(i as int).skip(1) =~= entries@.skip(i as int + 1));
        i = i + 1;
    }
    assert(entries@.skip(i as int).len() == 0);
    None
}

/// What the file holds at a position found by [`find_key`].
pub open spec fn held_at(existing: Seq<(String, TomlShape)>, at: Option<usize>) -> Option<TomlShape> {
    match at {
        Some(i) => Some(existing[i as int].1),
        None => None,
    }
}

/// Whether every item is an object, and there is at least one.
pub fn is_array_of_tables(items: &Vec<JsonShape>) -> (r: bool)
    ensures
        r == all_objects(items@),
{
    if items.len() == 0 {
        return false;
    }
    let mut i: usize = 0;
    while i < items.len()
        invariant
            i <= items.len(),
            forall|j: int| 0 <= j < i ==> (#[trigger] items@[j]) is Object,
        decreases items.len() - i,
    {
        match &items[i] {
            JsonShape::Object(_) => {},
            _ => {
                return false;
            },
        }
        i = i + 1;
    }
    true
}

/// The edits that merge the object `new` into a table holding `existing`.
pub fn plan_table(existing: &Vec<(String, TomlShape)>, new: &JsonShape) -> (r: Vec<TableEdit>)
    requires
        new is Object,
    ensures
        table_plan(r@, existing@, *new),
    decreases *new, 0nat,
{
    match new {
        JsonShape::Object(entries) => {
            let ghost stale = stale_keys(existing@, entries@);
            let mut edits: Vec<TableEdit> = Vec::new();
            let mut i: usize = 0;
            while i < existing.len()
                invariant
                    i <= existing.len(),
                    edits.len() == stale_keys(existing@.take(i as int), entries@).len(),
                    forall|m: int|
                        0 <= m < edits.len() ==> (#[trigger] edits@[m] matches TableEdit::Remove(k)
                            && k@ == stale_keys(existing@.take(i as int), entries@)[m]),
                decreases existing.len() - i,
            {
                assert(existing@.take(i + 1).drop_last() =~= existing@.take(i as int));
                if find_key(entries, &existing[i].0).is_none() {
                    edits.push(TableEdit::Remove(owned(existing[i].0.as_str())));
                }
                i = i + 1;
            }
            assert(existing@.take(existing.len() as int) =~= existing@);
            let ghost lead = edits.len();
            let mut j: usize = 0;
            while j < entries.len()
                invariant
                    *new == JsonShape::Object(*entries),
                    lead == stale.len(),
                    j <= entries.len(),
                    edits.len() == lead + j,
                    forall|m: int|
                        0 <= m < lead ==> (#[trigger] edits@[m] matches TableEdit::Remove(k) && k@
                            == stale[m]),
                    forall|jj: int|
                        0 <= jj < j ==> entry_plan(
                            #[trigger] edits@[lead + jj],
                            find(existing@, entries@[jj].0@),
                            entries@[jj].0@,
                            entries@[jj].1,
                        ),
                decreases entries.len() - j,
            {
                let at = find_key(existing, &entries[j].0);
                assert(decreases_to!(*new => (*new)->Object_0));
                assert(decreases_to!(*entries => entries@));
                assert(decreases_to!(entries@ => entries@[j as int]));
                assert(decreases_to!(entries@[j as int] => entries@[j as int].1));
                let e = plan_entry(existing, at, &entries[j].0, &entries[j].1);
                edits.push(e);
                assert(edits@[lead + j] == e);
                j = j + 1;
            }
            edits
        },
        _ => Vec::new(),
    }
}

/// The edit for the new entry `key: new`, given where (if anywhere) the
/// table already holds the key.
pub fn plan_entry(existing: &Vec<(String, TomlShape)>, at: Option<usize>, key: &String, new: &JsonShape) -> (r: TableEdit)
    requires
        at matches Some(i) ==> i < existing.len(),
    ensures
        entry_plan(r, held_at(existing@, at), key@, *new),
    decreases *new, 1nat,
{
    let empty: Vec<(String, TomlShape)> = Vec::new();
    match new {
        JsonShape::Null => TableEdit::Remove(owned(key.as_str())),
        JsonShape::Scalar => TableEdit::Assign(owned(key.as_str())),
        JsonShape::Array(items) => {
            let (was_array, was_tables) = match at {
                Some(a) => match &existing[a].1 {
                    TomlShape::Array(_) => (true, false),
                    TomlShape::Tables(_) => (false, true),
                    _ => (false, false),
                },
                None => (false, false),
            };
            if is_array_of_tables(items) && !was_array {
                let ghost ex = held_at(existing@, at);
                let mut plans: Vec<Vec<TableEdit>> = Vec::new();
                let mut i: usize = 0;
                while i < items.len()
                    invariant
                        *new == JsonShape::Array(*items),
                        all_objects(items@),
                        at matches Some(a) ==> a < existing.len(),
                        ex == held_at(existing@, at),
                        empty@.len() == 0,
                        i <= items.len(),
                        plans.len() == i,
                        forall|ii: int|
                            0 <= ii < i ==> table_plan(
                                (#[trigger] plans@[ii])@,
                                table_at(existing_tables(ex), ii),
                                items@[ii],
                            ),
                    decreases items.len() - i,
                {
                    let target: &Vec<(String, TomlShape)> = match at {
                        Some(a) => match &existing[a].1 {
                            TomlShape::Tables(ts) => if i < ts.len() {
                                &ts[i]
                            } else {
                                &empty
                            },
                            _ => &empty,
                        },
                        None => &empty,
                    };
                    assert(target@ == table_at(existing_tables(ex), i as int));
                    assert(items@[i as int] is Object);
                    assert(decreases_to!(*new => (*new)->Array_0));
                    assert(decreases_to!(*items => items@));
                    assert(decreases_to!(items@ => items@[i as int]));
                    let p = plan_table(target, &items[i]);
                    plans.push(p);
                    assert(plans@[i as int] == p);
                    i = i + 1;
                }
                TableEdit::Tables { key: owned(key.as_str()), fresh: !was_tables, items: plans }
            } else {
                match at {
                    Some(a) => match &existing[a].1 {
                        TomlShape::Array(elems) => TableEdit::Array {
                            key: owned(key.as_str()),
                            edits: plan_array(elems, new),
                        },
                        _ => TableEdit::Assign(owned(key.as_str())),
                    },
                    None => TableEdit::Assign(owned(key.as_str())),
                }
            }
        },
        JsonShape::Object(_) => match at {
            Some(a) => match &existing[a].1 {
                TomlShape::Inline(keys) => TableEdit::Inline {
                    key: owned(key.as_str()),
                    edits: plan_inline(keys, new),
                },
                TomlShape::Table(sub) => TableEdit::Table {
                    key: owned(key.as_str()),
                    fresh: false,
                    edits: plan_table(sub, new),
                },
                _ => TableEdit::Table {
                    key: owned(key.as_str()),
                    fresh: true,
                    edits: plan_table(&empty, new),
                },
            },
            None => TableEdit::Table {
                key: owned(key.as_str()),
                fresh: true,
                edits: plan_table(&empty, new),
            },
        },
    }
}

/// The edits that update an inline array holding `elems` to the array `new`.
pub fn plan_array(elems: &Vec<TomlShape>, new: &JsonShape) -> (r: Vec<ArrayEdit>)
    requires
        new is Array,
    ensures
        array_plan(r@, elems@, *new),
    decreases *new, 0nat,
{
    match new {
        JsonShape::Array(items) => {
            let mut edits: Vec<ArrayEdit> = Vec::new();
            let cut = elems.len() > items.len();
            if cut {
                edits.push(ArrayEdit::Truncate(items.len()));
            }
            let lead: usize = if cut {
                1
            } else {
                0
            };
            let mut i: usize = 0;
            while i < items.len()
                invariant
                    *new == JsonShape::Array(*items),
                    cut == (elems.len() > items.len()),
                    lead == (if cut {
                        1usize
                    } else {
                        0usize
                    }),
                    i <= items.len(),
                    edits.len() == lead + i,
                    cut ==> (edits@[0] matches ArrayEdit::Truncate(n) && n == items.len()),
                    forall|ii: int|
                        0 <= ii < i ==> element_plan(
                            #[trigger] edits@[lead + ii],
                            ii,
                            if ii < elems.len() {
                                Some(elems@[ii])
                            } else {
                                None
                            },
                            items@[ii],
                        ),
                decreases items.len() - i,
            {
                let e = plan_element(elems, i, &items[i]);
                edits.push(e);
                assert(edits@[lead + i] == e);
                i = i + 1;
            }
            edits
        },
        _ => Vec::new(),
    }
}

/// The edit for the new element `new` at position `i`.
pub fn plan_element(elems: &Vec<TomlShape>, i: usize, new: &JsonShape) -> (r: ArrayEdit)
    ensures
        element_plan(
            r,
            i as int,
            if i < elems.len() {
                Some(elems@[i as int])
            } else {
                None
            },
            *new,
        ),
    decreases *new, 1nat,
{
    if i >= elems.len() {
        return ArrayEdit::Push(i);
    }
    match &elems[i] {
        TomlShape::Inline(keys) => match new {
            JsonShape::Object(_) => ArrayEdit::Inline(i, plan_inline(keys, new)),
            _ => ArrayEdit::Replace(i),
        },
        _ => ArrayEdit::Replace(i),
    }
}

/// The edits that update an inline table holding `existing` to the object `new`.
pub fn plan_inline(existing: &Vec<(String, TomlShape)>, new: &JsonShape) -> (r: Vec<InlineEdit>)
    requires
        new is Object,
    ensures
        inline_plan(r@, existing@, *new),
    decreases *new, 0nat,
{
    match new {
        JsonShape::Object(entries) => {
            let ghost stale = stale_inline_keys(existing@, entries@);
            let mut edits: Vec<InlineEdit> = Vec::new();
            let mut i: usize = 0;
            while i < existing.len()
                invariant
                    i <= existing.len(),
                    edits.len() == stale_inline_keys(existing@.take(i as int), entries@).len(),
                    forall|m: int|
                        0 <= m < edits.len() ==> (#[trigger] edits@[m] matches InlineEdit::Remove(k)
                            && k@ == stale_inline_keys(existing@.take(i as int), entries@)[m]),
                decreases existing.len() - i,
            {
                assert(existing@.take(i + 1).drop_last() =~= existing@.take(i as int));
                let gone = match find_key(entries, &existing[i].0) {
                    Some(idx) => match &entries[idx].1 {
                        JsonShape::Null => true,
                        _ => false,
                    },
                    None => true,
                };
                if gone {
                    edits.push(InlineEdit::Remove(owned(existing[i].0.as_str())));
                }
                i = i + 1;
            }
            assert(existing@.take(existing.len() as int) =~= existing@);
            let ghost lead = edits.len();
            let mut j: usize = 0;
            while j < entries.len()
                invariant
                    *new == JsonShape::Object(*entries),
                    lead == stale.len(),
                    j <= entries.len(),
                    edits.len() == lead + count_kept(entries@.take(j as int)),
                    forall|m: int|
                        0 <= m < lead ==> (#[trigger] edits@[m] matches InlineEdit::Remove(k) && k@
                            == stale[m]),
                    forall|jj: int|
                        0 <= jj < j && !(entries@[jj].1 is Null) ==> inline_entry_plan(
                            #[trigger] edits@[lead + count_kept(entries@.take(jj)) as int],
                            find(existing@, entries@[jj].0@),
                            entries@[jj].0@,
                            entries@[jj].1,
                        ),
                decreases entries.len() - j,
            {
                assert(entries@.take(j + 1).drop_last() =~= entries@.take(j as int));
                let skip = match &entries[j].1 {
                    JsonShape::Null => true,
                    _ => false,
                };
                if !skip {
                    let at = find_key(existing, &entries[j].0);
                    assert(decreases_to!(*new => (*new)->Object_0));
                assert(decreases_to!(*entries => entries@));
                assert(decreases_to!(entries@ => entries@[j as int]));
                assert(decreases_to!(entries@[j as int] => entries@[j as int].1));
                    let e = plan_inline_entry(existing, at, &entries[j].0, &entries[j].1);
                    edits.push(e);
                    assert(edits@[lead + count_kept(entries@.take(j as int)) as int] == e);
                    assert forall|jj: int| 0 <= jj < j && !(entries@[jj].1 is Null) implies count_kept(
                        entries@.take(jj),
                    ) < count_kept(entries@.take(j as int)) by {
                        lemma_count_kept_grows(entries@, jj, j as int);
                    }
                }
                j = j + 1;
            }
            assert(entries@.take(entries.len() as int) =~= entries@);
            edits
        },
        _ => Vec::new(),
    }
}

/// The edit for the non-null new entry `key: new` of an inline table.
pub fn plan_inline_entry(existing: &Vec<(String, TomlShape)>, at: Option<usize>, key: &String, new: &JsonShape) -> (r: InlineEdit)
    requires
        at matches Some(i) ==> i < existing.len(),
    ensures
        inline_entry_plan(r, held_at(existing@, at), key@, *new),
    decreases *new, 1nat,
{
    match at {
        None => InlineEdit::Append(owned(key.as_str())),
        Some(a) => match &existing[a].1 {
            TomlShape::Inline(keys) => match new {
                JsonShape::Object(_) => InlineEdit::Nested(owned(key.as_str()), plan_inline(keys, new)),
                _ => InlineEdit::Replace(owned(key.as_str())),
            },
            _ => InlineEdit::Replace(owned(key.as_str())),
        },
    }
}

/// Why a save is refused before the file is touched: the config sent must
/// be a table at the top.
pub const NOT_A_TABLE: &'static str = "설정은 최상위가 테이블이어야 합니다.";

/// The edits that merge the config `config` into the document's top-level
/// table holding `existing`; `None` when the config isn't an object.
pub fn plan_merge(existing: &Vec<(String, TomlShape)>, config: &JsonShape) -> (r: Option<
    Vec<TableEdit>,
>)
    ensures
        r is None <==> !(config is Object),
        r matches Some(edits) ==> table_plan(edits@, existing@, *config),
{
    match config {
        JsonShape::Object(_) => Some(plan_table(existing, config)),
        _ => None,
    }
}

} // verus!

//! The table of boxes.
//!
//! One row for each box: its configuration, written once, and its state.
//! No two rows share an identifier, and no two rows share a name. A box is
//! found by its name, by its identifier, or by the first characters of its
//! identifier where these name one box only.

use vstd::prelude::*;

use crate::config::BoxConfig;
use crate::config::BoxConfigView;
use crate::error::BoxliteError;
use crate::error::ErrorKind;
use crate::error::ErrorView;
use crate::info::info_of;
use crate::info::BoxInfo;
use crate::info::BoxInfoView;
use crate::state::BoxState;
use crate::text::chars_eq;
use crate::text::chars_of;
use crate::text::push_str;
use crate::text::string_of;
use crate::text::sub_vec;

verus! {

/// The fewest characters of an identifier that can stand for it.
pub const MIN_PREFIX_LENGTH: usize = 12;

/// One row of the table.
#[derive(Debug)]
pub struct BoxRow {
    pub config: BoxConfig,
    pub state: BoxState,
}

pub struct BoxRowView {
    pub config: BoxConfigView,
    pub state: BoxState,
}

impl DeepView for BoxRow {
    type V = BoxRowView;

    open spec fn deep_view(&self) -> BoxRowView {
        BoxRowView { config: self.config.deep_view(), state: self.state }
    }
}

/// Whether some row has the identifier.
pub open spec fn has_id(rows: Seq<BoxRowView>, id: Seq<char>) -> bool {
    exists|i: int| 0 <= i < rows.len() && (#[trigger] rows[i]).config.id == id
}

/// Whether some row has the name.
pub open spec fn has_name(rows: Seq<BoxRowView>, name: Seq<char>) -> bool {
    exists|i: int| 0 <= i < rows.len() && (#[trigger] rows[i]).config.name == Some(name)
}

/// A table is well formed when no two rows share an identifier and no two
/// rows share a name.
pub open spec fn table_wf(rows: Seq<BoxRowView>) -> bool {
    &&& forall|i: int, j: int|
        0 <= i < j < rows.len() ==> (#[trigger] rows[i]).config.id != (#[trigger] rows[j]).config.id
    &&& forall|i: int, j: int|
        0 <= i < j < rows.len() && (#[trigger] rows[i]).config.name is Some ==> rows[i].config.name
            != (#[trigger] rows[j]).config.name
}

/// How many rows have an identifier that starts with the prefix.
pub open spec fn prefix_matches(rows: Seq<BoxRowView>, prefix: Seq<char>) -> nat
    decreases rows.len(),
{
    if rows.len() == 0 {
        0
    } else {
        prefix_matches(rows.drop_last(), prefix) + if prefix.is_prefix_of(rows.last().config.id) {
            1nat
        } else {
            0nat
        }
    }
}

/// What a key stands for.
#[derive(Clone, Copy, Debug, PartialEq, Eq, Structural)]
pub enum Lookup {
    /// The row at the index.
    Found { index: usize },
    /// No row.
    Missing,
    /// A prefix of the identifiers of two rows or more.
    Ambiguous,
}

/// Whether the key stands for the row at `index`: the row has the key as
/// its name; or no row has, and the row has the key as its identifier; or
/// no row has either, the key is 12 characters or more, and the row is the
/// only one whose identifier starts with the key.
pub open spec fn key_names_row(rows: Seq<BoxRowView>, key: Seq<char>, index: int) -> bool {
    &&& 0 <= index < rows.len()
    &&& {
        ||| rows[index].config.name == Some(key)
        ||| !has_name(rows, key) && rows[index].config.id == key
        ||| !has_name(rows, key) && !has_id(rows, key) && key.len() >= MIN_PREFIX_LENGTH
            && key.is_prefix_of(rows[index].config.id) && prefix_matches(rows, key) == 1
    }
}

/// What the key stands for in the table.
pub open spec fn lookup_is(rows: Seq<BoxRowView>, key: Seq<char>, r: Lookup) -> bool {
    match r {
        Lookup::Found { index } => key_names_row(rows, key, index as int),
        Lookup::Missing => !has_name(rows, key) && !has_id(rows, key) && (key.len()
            < MIN_PREFIX_LENGTH || prefix_matches(rows, key) == 0),
        Lookup::Ambiguous => !has_name(rows, key) && !has_id(rows, key) && key.len()
            >= MIN_PREFIX_LENGTH && prefix_matches(rows, key) >= 2,
    }
}

pub open spec fn not_found_failure(key: Seq<char>) -> ErrorView {
    ErrorView { kind: ErrorKind::NotFound, message: "box not found: "@ + key }
}

pub open spec fn name_taken_failure(name: Seq<char>) -> ErrorView {
    ErrorView {
        kind: ErrorKind::AlreadyExists,
        message: "box with name '"@ + name + "' already exists"@,
    }
}

pub open spec fn id_taken_failure(id: Seq<char>) -> ErrorView {
    ErrorView {
        kind: ErrorKind::AlreadyExists,
        message: "box with id '"@ + id + "' already exists"@,
    }
}

pub open spec fn ambiguous_failure(key: Seq<char>) -> ErrorView {
    ErrorView {
        kind: ErrorKind::InvalidState,
        message: "ambiguous id prefix '"@ + key + "': more than one box matches"@,
    }
}

/// The table of boxes.
#[derive(Debug)]
pub struct BoxManager {
    rows: Vec<BoxRow>,
}

impl DeepView for BoxManager {
    type V = Seq<BoxRowView>;

    /// The rows, in the order the boxes were added.
    closed spec fn deep_view(&self) -> Seq<BoxRowView> {
        self.rows.deep_view()
    }
}

fn texts_equal(a: &str, b: &str) -> (r: bool)
    ensures
        r == (a@ == b@),
{
    chars_eq(&chars_of(a), &chars_of(b))
}

fn starts_with(text: &str, prefix: &str) -> (r: bool)
    ensures
        r == prefix@.is_prefix_of(text@),
{
    let t = chars_of(text);
    let p = chars_of(prefix);
    if p.len() > t.len() {
        return false;
    }
    let head = sub_vec(&t, 0, p.len());
    let r = chars_eq(&head, &p);
    proof {
        if r {
            assert(p@ =~= t@.subrange(0, p@.len() as int));
        }
        if p@.is_prefix_of(t@) {
            assert(t@.subrange(0, p@.len() as int) =~= p@);
        }
    }
    r
}

fn name_is(name: &Option<String>, key: &str) -> (r: bool)
    ensures
        r == (name.deep_view() == Some(key@)),
{
    match name {
        Some(n) => texts_equal(n.as_str(), key),
        None => false,
    }
}

impl BoxManager {
    #[verifier::type_invariant]
    spec fn well_formed(&self) -> bool {
        table_wf(self.rows.deep_view())
    }

    /// An empty table.
    pub fn new() -> (r: BoxManager)
        ensures
            r.deep_view() == Seq::<BoxRowView>::empty(),
    {
        let r = BoxManager { rows: Vec::new() };
        assert(r.rows.deep_view() =~= Seq::empty());
        r
    }

    /// The table is well formed.
    pub fn check(&self)
        ensures
            table_wf(self.deep_view()),
    {
        proof {
            use_type_invariant(self);
        }
    }

    pub fn len(&self) -> (r: usize)
        ensures
            r == self.deep_view().len(),
    {
        self.rows.len()
    }

    pub fn is_empty(&self) -> (r: bool)
        ensures
            r == (self.deep_view().len() == 0),
    {
        self.rows.len() == 0
    }

    /// The rows, in the order the boxes were added.
    pub fn list(&self) -> (r: &Vec<BoxRow>)
        ensures
            r.deep_view() == self.deep_view(),
            table_wf(r.deep_view()),
    {
        proof {
            use_type_invariant(self);
        }
        &self.rows
    }

    /// The row at an index.
    pub fn row(&self, index: usize) -> (r: &BoxRow)
        requires
            index < self.deep_view().len(),
        ensures
            r.deep_view() == self.deep_view()[index as int],
    {
        &self.rows[index]
    }

    fn find_name(&self, name: &str) -> (r: Option<usize>)
        ensures
            match r {
                Some(i) => i < self.deep_view().len() && self.deep_view()[i as int].config.name
                    == Some(name@),
                None => !has_name(self.deep_view(), name@),
            },
    {
        let mut i: usize = 0;
        while i < self.rows.len()
            invariant
                i <= self.rows.len(),
                forall|j: int|
                    0 <= j < i ==> (#[trigger] self.deep_view()[j]).config.name != Some(name@),
            decreases self.rows.len() - i,
        {
            if name_is(&self.rows[i].config.name, name) {
                return Some(i);
            }
            i += 1;
        }
        None
    }

    fn find_id(&self, id: &str) -> (r: Option<usize>)
        ensures
            match r {
                Some(i) => i < self.deep_view().len() && self.deep_view()[i as int].config.id
                    == id@,
                None => !has_id(self.deep_view(), id@),
            },
    {
        let mut i: usize = 0;
        while i < self.rows.len()
            invariant
                i <= self.rows.len(),
                forall|j: int| 0 <= j < i ==> (#[trigger] self.deep_view()[j]).config.id != id@,
            decreases self.rows.len() - i,
        {
            if texts_equal(self.rows[i].config.id.as_str(), id) {
                return Some(i);
            }
            i += 1;
        }
        None
    }

    /// What the key stands for: a name, an identifier, or the first 12
    /// characters or more of one identifier.
    pub fn lookup(&self, key: &str) -> (r: Lookup)
        ensures
            lookup_is(self.deep_view(), key@, r),
    {
        if let Some(i) = self.find_name(key) {
            return Lookup::Found { index: i };
        }
        if let Some(i) = self.find_id(key) {
            return Lookup::Found { index: i };
        }
        if key.unicode_len() < MIN_PREFIX_LENGTH {
            return Lookup::Missing;
        }
        let ghost rows = self.deep_view();
        let mut found: Option<usize> = None;
        let mut i: usize = 0;
        while i < self.rows.len()
            invariant
                i <= self.rows.len(),
                rows == self.deep_view(),
                !has_name(rows, key@),
                !has_id(rows, key@),
                key@.len() >= MIN_PREFIX_LENGTH,
                match found {
                    Some(k) => k < i && key@.is_prefix_of(rows[k as int].config.id)
                        && prefix_matches(rows.take(i as int), key@) == 1,
                    None => prefix_matches(rows.take(i as int), key@) == 0,
                },
            decreases self.rows.len() - i,
        {
            proof {
                assert(rows.take(i + 1).drop_last() == rows.take(i as int));
                assert(rows.take(i + 1).last() == rows[i as int]);
            }
            if starts_with(self.rows[i].config.id.as_str(), key) {
                if found.is_some() {
                    proof {
                        lemma_prefix_matches_grows(rows, key@, i + 1);
                    }
                    return Lookup::Ambiguous;
                }
                found = Some(i);
            }
            i += 1;
        }
        assert(rows.take(self.rows.len() as int) == rows);
        match found {
            Some(k) => Lookup::Found { index: k },
            None => Lookup::Missing,
        }
    }

    /// A key that stands for a row is neither missing nor ambiguous.
    pub proof fn lemma_found_excludes(&self, key: Seq<char>, i: int)
        requires
            key_names_row(self.deep_view(), key, i),
        ensures
            !lookup_is(self.deep_view(), key, Lookup::Missing),
            !lookup_is(self.deep_view(), key, Lookup::Ambiguous),
    {
        let rows = self.deep_view();
        if rows[i].config.name == Some(key) {
            assert(has_name(rows, key));
        } else if rows[i].config.id == key {
            assert(has_id(rows, key));
        }
    }

    /// The row that the key stands for, if there is one. Fails with
    /// `InvalidState` for a prefix of the identifiers of two boxes or
    /// more.
    pub fn get_by_id_or_name(&self, key: &str) -> (r: Result<Option<&BoxRow>, BoxliteError>)
        ensures
            match r {
                Ok(Some(row)) => exists|i: int|
                    #[trigger] key_names_row(self.deep_view(), key@, i) && row.deep_view()
                        == self.deep_view()[i],
                Ok(None) => lookup_is(self.deep_view(), key@, Lookup::Missing),
                Err(e) => lookup_is(self.deep_view(), key@, Lookup::Ambiguous) && e.deep_view()
                    == ambiguous_failure(key@),
            },
    {
        match self.lookup(key) {
            Lookup::Found { index } => {
                assert(key_names_row(self.deep_view(), key@, index as int));
                Ok(Some(&self.rows[index]))
            },
            Lookup::Missing => Ok(None),
            Lookup::Ambiguous => Err(ambiguous_error(key)),
        }
    }

    /// The record of every box, in the order the boxes were added.
    pub fn list_info(&self) -> (r: Vec<BoxInfo>)
        ensures
            r.len() == self.deep_view().len(),
            forall|i: int|
                0 <= i < r.len() ==> (#[trigger] r[i]).deep_view() == info_of(
                    self.deep_view()[i].config,
                    self.deep_view()[i].state,
                ),
    {
        let mut infos: Vec<BoxInfo> = Vec::new();
        let mut i: usize = 0;
        while i < self.rows.len()
            invariant
                i <= self.rows.len(),
                infos.len() == i,
                forall|j: int|
                    0 <= j < i ==> (#[trigger] infos[j]).deep_view() == info_of(
                        self.deep_view()[j].config,
                        self.deep_view()[j].state,
                    ),
            decreases self.rows.len() - i,
        {
            infos.push(BoxInfo::new(&self.rows[i].config, &self.rows[i].state));
            i += 1;
        }
        infos
    }

    /// Adds a box. Fails with `AlreadyExists`, and adds nothing, where the
    /// name or the identifier is taken.
    pub fn add_box(&mut self, config: BoxConfig, state: BoxState) -> (r: Result<(), BoxliteError>)
        ensures
            table_wf(final(self).deep_view()),
            r is Ok <==> !has_id(old(self).deep_view(), config.id@) && !(config.name matches Some(n)
                && has_name(old(self).deep_view(), n@)),
            r is Ok ==> final(self).deep_view() == old(self).deep_view().push(
                BoxRowView { config: config.deep_view(), state },
            ),
            r matches Err(e) ==> {
                &&& final(self).deep_view() == old(self).deep_view()
                &&& e.deep_view() == if config.name matches Some(n) && has_name(
                    old(self).deep_view(),
                    n@,
                ) {
                    name_taken_failure(config.name->0@)
                } else {
                    id_taken_failure(config.id@)
                }
            },
    {
        proof {
            use_type_invariant(&*self);
        }
        match &config.name {
            Some(n) => {
                if self.find_name(n.as_str()).is_some() {
                    let mut m = chars_of("box with name '");
                    push_str(&mut m, n.as_str());
                    push_str(&mut m, "' already exists");
                    return Err(BoxliteError::AlreadyExists(string_of(&m)));
                }
            },
            None => {},
        }
        if self.find_id(config.id.as_str()).is_some() {
            let mut m = chars_of("box with id '");
            push_str(&mut m, config.id.as_str());
            push_str(&mut m, "' already exists");
            return Err(BoxliteError::AlreadyExists(string_of(&m)));
        }
        let ghost before = self.rows.deep_view();
        let ghost added = BoxRowView { config: config.deep_view(), state };
        let mut rows: Vec<BoxRow> = Vec::new();
        std::mem::swap(&mut rows, &mut self.rows);
        rows.push(BoxRow { config, state });
        proof {
            assert(rows.deep_view() =~= before.push(added));
            let after = rows.deep_view();
            assert forall|i: int, j: int| 0 <= i < j < after.len() implies (#[trigger] after[i]).config.id
                != (#[trigger] after[j]).config.id by {
                if j == before.len() {
                    assert(before[i].config.id != added.config.id);
                }
            }
            assert forall|i: int, j: int|
                0 <= i < j < after.len() && (#[trigger] after[i]).config.name is Some implies after[i].config.name
                != (#[trigger] after[j]).config.name by {
                if j == before.len() {
                    if added.config.name is Some {
                        assert(before[i].config.name != Some(added.config.name->0));
                    }
                }
            }
        }
        std::mem::swap(&mut rows, &mut self.rows);
        Ok(())
    }

    /// Writes the state of a box. Fails with `NotFound` where no box has
    /// the identifier.
    pub fn save_box(&mut self, id: &str, state: &BoxState) -> (r: Result<(), BoxliteError>)
        ensures
            table_wf(final(self).deep_view()),
            r is Ok <==> has_id(old(self).deep_view(), id@),
            r is Ok ==> exists|i: int|
                {
                    &&& 0 <= i < old(self).deep_view().len()
                    &&& (#[trigger] old(self).deep_view()[i]).config.id == id@
                    &&& final(self).deep_view() == old(self).deep_view().update(
                        i,
                        BoxRowView { state: *state, ..old(self).deep_view()[i] },
                    )
                },
            r matches Err(e) ==> final(self).deep_view() == old(self).deep_view() && e.deep_view()
                == not_found_failure(id@),
    {
        proof {
            use_type_invariant(&*self);
        }
        match self.find_id(id) {
            Some(i) => {
                let ghost before = self.rows.deep_view();
                let mut rows: Vec<BoxRow> = Vec::new();
                std::mem::swap(&mut rows, &mut self.rows);
                rows[i].state = *state;
                proof {
                    let after = rows.deep_view();
                    assert(after =~= before.update(
                        i as int,
                        BoxRowView { state: *state, ..before[i as int] },
                    ));
                    assert forall|a: int, b: int| 0 <= a < b < after.len() implies (
                    #[trigger] after[a]).config.id != (#[trigger] after[b]).config.id by {
                        assert(after[a].config == before[a].config);
                        assert(after[b].config == before[b].config);
                    }
                    assert forall|a: int, b: int|
                        0 <= a < b < after.len() && (#[trigger] after[a]).config.name is Some implies after[a].config.name
                        != (#[trigger] after[b]).config.name by {
                        assert(after[a].config == before[a].config);
                        assert(after[b].config == before[b].config);
                    }
                }
                std::mem::swap(&mut rows, &mut self.rows);
                Ok(())
            },
            None => Err(not_found_error(id)),
        }
    }

    /// Removes the box with the identifier and returns its row. Fails
    /// with `NotFound` where no box has the identifier.
    pub fn remove(&mut self, id: &str) -> (r: Result<BoxRow, BoxliteError>)
        ensures
            table_wf(final(self).deep_view()),
            r is Ok <==> has_id(old(self).deep_view(), id@),
            r matches Ok(row) ==> exists|i: int|
                {
                    &&& 0 <= i < old(self).deep_view().len()
                    &&& (#[trigger] old(self).deep_view()[i]).config.id == id@
                    &&& row.deep_view() == old(self).deep_view()[i]
                    &&& final(self).deep_view() == old(self).deep_view().remove(i)
                },
            r is Ok ==> !has_id(final(self).deep_view(), id@),
            r matches Err(e) ==> final(self).deep_view() == old(self).deep_view() && e.deep_view()
                == not_found_failure(id@),
    {
        proof {
            use_type_invariant(&*self);
        }
        match self.find_id(id) {
            Some(i) => {
                let ghost before = self.rows.deep_view();
                let mut rows: Vec<BoxRow> = Vec::new();
                std::mem::swap(&mut rows, &mut self.rows);
                let row = rows.remove(i);
                proof {
                    let after = rows.deep_view();
                    assert(after =~= before.remove(i as int));
                    assert forall|a: int, b: int| 0 <= a < b < after.len() implies (
                    #[trigger] after[a]).config.id != (#[trigger] after[b]).config.id by {
                        let a0 = if a < i { a } else { a + 1 };
                        let b0 = if b < i { b } else { b + 1 };
                        assert(after[a] == before[a0] && after[b] == before[b0]);
                    }
                    assert forall|a: int, b: int|
                        0 <= a < b < after.len() && (#[trigger] after[a]).config.name is Some implies after[a].config.name
                        != (#[trigger] after[b]).config.name by {
                        let a0 = if a < i { a } else { a + 1 };
                        let b0 = if b < i { b } else { b + 1 };
                        assert(after[a] == before[a0] && after[b] == before[b0]);
                    }
                    assert forall|k: int| 0 <= k < after.len() implies (#[trigger] after[k]).config.id
                        != id@ by {
                        let k0 = if k < i { k } else { k + 1 };
                        assert(after[k] == before[k0]);
                        if k0 < i {
                            assert(before[k0].config.id != before[i as int].config.id);
                        } else {
                            assert(before[i as int].config.id != before[k0].config.id);
                        }
                    }
                }
                std::mem::swap(&mut rows, &mut self.rows);
                Ok(row)
            },
            None => Err(not_found_error(id)),
        }
    }
}

/// The failure for a key that stands for no box.
pub fn not_found_error(key: &str) -> (e: BoxliteError)
    ensures
        e.deep_view() == not_found_failure(key@),
{
    let mut m = chars_of("box not found: ");
    push_str(&mut m, key);
    BoxliteError::NotFound(string_of(&m))
}

/// The failure for a prefix of the identifiers of two boxes or more.
pub fn ambiguous_error(key: &str) -> (e: BoxliteError)
    ensures
        e.deep_view() == ambiguous_failure(key@),
{
    let mut m = chars_of("ambiguous id prefix '");
    push_str(&mut m, key);
    push_str(&mut m, "': more than one box matches");
    BoxliteError::InvalidState(string_of(&m))
}

/// The count of matches among the first `n` rows never exceeds the count
/// among all rows.
pub proof fn lemma_prefix_matches_grows(rows: Seq<BoxRowView>, prefix: Seq<char>, n: int)
    requires
        0 <= n <= rows.len(),
    ensures
        prefix_matches(rows.take(n), prefix) <= prefix_matches(rows, prefix),
    decreases rows.len() - n,
{
    if n == rows.len() {
        assert(rows.take(n) == rows);
    } else {
        lemma_prefix_matches_grows(rows, prefix, n + 1);
        assert(rows.take(n + 1).drop_last() == rows.take(n));
    }
}

// ============================================================================
// Laws of the table
// ============================================================================

/// A name is taken by one box at most: in a well-formed table that holds a
/// box of the given name, a second box of that name cannot be added.
pub proof fn lemma_names_are_unique(rows: Seq<BoxRowView>, row: BoxRowView)
    requires
        table_wf(rows),
        row.config.name is Some,
        has_name(rows, row.config.name->0),
    ensures
        !table_wf(rows.push(row)),
{
    let name = row.config.name->0;
    let i = choose|i: int| 0 <= i < rows.len() && (#[trigger] rows[i]).config.name == Some(name);
    let after = rows.push(row);
    assert(after[i].config.name is Some);
    assert(after[i].config.name == after[rows.len() as int].config.name);
}

/// A removed box is gone: once the row with an identifier is removed from
/// a well-formed table, no row has the identifier, so that removing it
/// again finds nothing.
pub proof fn lemma_removed_is_gone(rows: Seq<BoxRowView>, i: int)
    requires
        table_wf(rows),
        0 <= i < rows.len(),
    ensures
        !has_id(rows.remove(i), rows[i].config.id),
        table_wf(rows.remove(i)),
{
    let after = rows.remove(i);
    assert forall|k: int| 0 <= k < after.len() implies (#[trigger] after[k]).config.id
        != rows[i].config.id by {
        let k0 = if k < i { k } else { k + 1 };
        assert(after[k] == rows[k0]);
        if k0 < i {
            assert(rows[k0].config.id != rows[i].config.id);
        } else {
            assert(rows[i].config.id != rows[k0].config.id);
        }
    }
    assert forall|a: int, b: int| 0 <= a < b < after.len() implies (#[trigger] after[a]).config.id != (
    #[trigger] after[b]).config.id by {
        let a0 = if a < i { a } else { a + 1 };
        let b0 = if b < i { b } else { b + 1 };
        assert(after[a] == rows[a0] && after[b] == rows[b0]);
    }
    assert forall|a: int, b: int|
        0 <= a < b < after.len() && (#[trigger] after[a]).config.name is Some implies after[a].config.name
        != (#[trigger] after[b]).config.name by {
        let a0 = if a < i { a } else { a + 1 };
        let b0 = if b < i { b } else { b + 1 };
        assert(after[a] == rows[a0] && after[b] == rows[b0]);
    }
}

/// A key stands for one row at most.
pub proof fn lemma_lookup_is_unique(rows: Seq<BoxRowView>, key: Seq<char>, i: int, j: int)
    requires
        table_wf(rows),
        key_names_row(rows, key, i),
        key_names_row(rows, key, j),
    ensures
        i == j,
{
    if i != j {
        let (a, b) = if i < j { (i, j) } else { (j, i) };
        if rows[i].config.name == Some(key) || rows[j].config.name == Some(key) {
            if rows[i].config.name == Some(key) {
                assert(has_name(rows, key));
            }
            if rows[j].config.name == Some(key) {
                assert(has_name(rows, key));
            }
            assert(rows[a].config.name == Some(key) && rows[b].config.name == Some(key));
        } else if rows[i].config.id == key || rows[j].config.id == key {
            if rows[i].config.id == key {
                assert(has_id(rows, key));
            }
            if rows[j].config.id == key {
                assert(has_id(rows, key));
            }
            assert(rows[a].config.id == rows[b].config.id);
        } else {
            lemma_two_matches(rows, key, a, b);
        }
    }
}

proof fn lemma_two_matches(rows: Seq<BoxRowView>, prefix: Seq<char>, a: int, b: int)
    requires
        0 <= a < b < rows.len(),
        prefix.is_prefix_of(rows[a].config.id),
        prefix.is_prefix_of(rows[b].config.id),
    ensures
        prefix_matches(rows, prefix) >= 2,
    decreases rows.len(),
{
    if b == rows.len() - 1 {
        lemma_one_match(rows.drop_last(), prefix, a);
    } else {
        lemma_two_matches(rows.drop_last(), prefix, a, b);
    }
}

proof fn lemma_one_match(rows: Seq<BoxRowView>, prefix: Seq<char>, a: int)
    requires
        0 <= a < rows.len(),
        prefix.is_prefix_of(rows[a].config.id),
    ensures
        prefix_matches(rows, prefix) >= 1,
    decreases rows.len(),
{
    if a < rows.len() - 1 {
        lemma_one_match(rows.drop_last(), prefix, a);
    }
}

} // verus!

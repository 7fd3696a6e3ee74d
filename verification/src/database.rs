use vstd::prelude::*;
use crate::rrm_error::RRMError;

verus! {

/// One record of the index: the name of an entry in the trash and the
/// directory it was moved from.
#[derive(Debug, Clone, PartialEq, Eq)]
pub struct FileEntryDB {
    pub name: String,
    pub origin: String,
}

/// A record as a pair of character sequences: its name, then its origin.
pub type Row = (Seq<char>, Seq<char>);

impl View for FileEntryDB {
    type V = Row;

    open spec fn view(&self) -> Row {
        (self.name@, self.origin@)
    }
}

/// The records of a vector, in order.
pub open spec fn rows_of(entries: Seq<FileEntryDB>) -> Seq<Row> {
    entries.map_values(|e: FileEntryDB| e@)
}

/// Some record carries `name`.
pub open spec fn has_name(rows: Seq<Row>, name: Seq<char>) -> bool {
    exists|i: int| 0 <= i < rows.len() && (#[trigger] rows[i]).0 == name
}

/// No two records carry the same name.
pub open spec fn unique_names(rows: Seq<Row>) -> bool {
    forall|i: int, j: int|
        0 <= i < j < rows.len() ==> (#[trigger] rows[i]).0 != (#[trigger] rows[j]).0
}

/// The records that do not carry `name`, in their order.
pub open spec fn without(rows: Seq<Row>, name: Seq<char>) -> Seq<Row> {
    rows.filter(|r: Row| r.0 != name)
}

/// Where no record carries `name`, taking `name` out changes nothing.
pub proof fn lemma_without_absent(rows: Seq<Row>, name: Seq<char>)
    requires
        !has_name(rows, name),
    ensures
        without(rows, name) == rows,
    decreases rows.len(),
{
    reveal(Seq::filter);
    if rows.len() > 0 {
        let front = rows.drop_last();
        assert forall|i: int| 0 <= i < front.len() implies (#[trigger] front[i]).0 != name by {
            assert(rows[i].0 != name);
        }
        lemma_without_absent(front, name);
        assert(rows.last().0 != name);
        assert(front.push(rows.last()) =~= rows);
    }
}

/// Where names are unique and the record at `i` carries `name`, taking `name`
/// out removes exactly that record.
pub proof fn lemma_without_present(rows: Seq<Row>, name: Seq<char>, i: int)
    requires
        unique_names(rows),
        0 <= i < rows.len(),
        rows[i].0 == name,
    ensures
        without(rows, name) == rows.remove(i),
    decreases rows.len(),
{
    reveal(Seq::filter);
    let front = rows.drop_last();
    let last = rows.len() - 1;
    if i == last {
        assert forall|k: int| 0 <= k < front.len() implies (#[trigger] front[k]).0 != name by {
            assert(rows[k].0 != rows[last].0);
        }
        lemma_without_absent(front, name);
        assert(rows.remove(i) =~= front);
    } else {
        assert(rows[i].0 != rows[last].0);
        assert forall|a: int, b: int| 0 <= a < b < front.len() implies (#[trigger] front[a]).0 != (
        #[trigger] front[b]).0 by {
            assert(rows[a].0 != rows[b].0);
        }
        lemma_without_present(front, name, i);
        assert(front.remove(i).push(rows.last()) =~= rows.remove(i));
    }
}

/// Taking a name out leaves no record that carries it, keeps the names
/// unique, and keeps only records that were there.
pub proof fn lemma_without_keeps_the_rest(rows: Seq<Row>, name: Seq<char>)
    ensures
        !has_name(without(rows, name), name),
        unique_names(rows) ==> unique_names(without(rows, name)),
        forall|r: Row| without(rows, name).contains(r) ==> rows.contains(r),
        forall|r: Row| rows.contains(r) && r.0 != name ==> without(rows, name).contains(r),
    decreases rows.len(),
{
    reveal(Seq::filter);
    let kept = without(rows, name);
    if rows.len() > 0 {
        let front = rows.drop_last();
        let last = rows.last();
        lemma_without_keeps_the_rest(front, name);
        let short = without(front, name);
        assert forall|r: Row| kept.contains(r) implies rows.contains(r) by {
            let k = choose|k: int| 0 <= k < kept.len() && kept[k] == r;
            if k < short.len() {
                assert(short[k] == r);
                assert(short.contains(r));
                assert(front.contains(r));
                let m = choose|m: int| 0 <= m < front.len() && front[m] == r;
                assert(rows[m] == r);
            } else {
                assert(rows[rows.len() - 1] == r);
            }
        }
        assert forall|r: Row| rows.contains(r) && r.0 != name implies kept.contains(r) by {
            let m = choose|m: int| 0 <= m < rows.len() && rows[m] == r;
            if m < front.len() {
                assert(front[m] == r);
                assert(front.contains(r));
                assert(short.contains(r));
                let k = choose|k: int| 0 <= k < short.len() && short[k] == r;
                assert(kept[k] == r);
            } else {
                assert(kept[kept.len() - 1] == r);
            }
        }
        if unique_names(rows) {
            assert forall|a: int, b: int| 0 <= a < b < front.len() implies (#[trigger] front[a]).0
                != (#[trigger] front[b]).0 by {
                assert(rows[a].0 != rows[b].0);
            }
            assert forall|a: int, b: int| 0 <= a < b < kept.len() implies (#[trigger] kept[a]).0
                != (#[trigger] kept[b]).0 by {
                if b < short.len() {
                    assert(short[a].0 != short[b].0);
                } else {
                    assert(short.contains(short[a]));
                    assert(front.contains(short[a]));
                    let m = choose|m: int| 0 <= m < front.len() && front[m] == short[a];
                    assert(rows[m].0 != rows[rows.len() - 1].0);
                }
            }
        }
        assert(!has_name(kept, name)) by {
            if has_name(kept, name) {
                let k = choose|k: int| 0 <= k < kept.len() && (#[trigger] kept[k]).0 == name;
                if k < short.len() {
                    assert(short[k].0 == name);
                }
            }
        }
    }
}

/// Taking the same name out a second time changes nothing.
pub proof fn lemma_remove_idempotent(rows: Seq<Row>, name: Seq<char>)
    ensures
        without(without(rows, name), name) == without(rows, name),
{
    lemma_without_keeps_the_rest(rows, name);
    lemma_without_absent(without(rows, name), name);
}

/// The index: the records of the entries that were moved into the trash, in
/// the order in which they were recorded. No two records carry the same name.
pub struct FileDB {
    rows: Vec<FileEntryDB>,
}

impl View for FileDB {
    type V = Seq<Row>;

    closed spec fn view(&self) -> Seq<Row> {
        rows_of(self.rows@)
    }
}

/// The place of the first record of `rows` that carries `name`, if there is one.
fn position(rows: &Vec<FileEntryDB>, name: &String) -> (found: Option<usize>)
    ensures
        match found {
            Some(i) => i < rows.len() && rows[i as int].name@ == name@ && forall|j: int|
                0 <= j < i ==> (#[trigger] rows[j]).name@ != name@,
            None => forall|j: int| 0 <= j < rows.len() ==> (#[trigger] rows[j]).name@ != name@,
        },
{
    let mut i: usize = 0;
    while i < rows.len()
        invariant
            i <= rows.len(),
            forall|j: int| 0 <= j < i ==> (#[trigger] rows[j]).name@ != name@,
        decreases rows.len() - i,
    {
        if rows[i].name == *name {
            return Some(i);
        }
        i += 1;
    }
    None
}

/// Whether no two records of `rows` carry the same name.
fn names_are_unique(rows: &Vec<FileEntryDB>) -> (unique: bool)
    ensures
        unique == unique_names(rows_of(rows@)),
{
    let mut j: usize = 0;
    while j < rows.len()
        invariant
            j <= rows.len(),
            unique_names(rows_of(rows@).take(j as int)),
        decreases rows.len() - j,
    {
        let mut i: usize = 0;
        while i < j
            invariant
                i <= j < rows.len(),
                forall|k: int| 0 <= k < i ==> (#[trigger] rows[k]).name@ != rows[j as int].name@,
            decreases j - i,
        {
            if rows[i].name == rows[j].name {
                proof {
                    let all = rows_of(rows@);
                    assert(all[i as int].0 == all[j as int].0);
                }
                return false;
            }
            i += 1;
        }
        proof {
            let all = rows_of(rows@);
            assert forall|a: int, b: int| 0 <= a < b < j + 1 implies (#[trigger] all.take(
                j + 1,
            )[a]).0 != (#[trigger] all.take(j + 1)[b]).0 by {
                if b < j {
                    assert(all.take(j as int)[a].0 != all.take(j as int)[b].0);
                } else {
                    assert(rows[a].name@ != rows[j as int].name@);
                }
            }
        }
        j += 1;
    }
    proof {
        assert(rows_of(rows@).take(j as int) =~= rows_of(rows@));
    }
    true
}

impl FileDB {
    /// What every index satisfies: no two of its records carry the same name.
    pub open spec fn wf(&self) -> bool {
        unique_names(self@)
    }

    /// Builds the index from the records that the store holds. A store in
    /// which two records carry the same name is corrupt.
    pub fn new(rows: Vec<FileEntryDB>) -> (opened: Result<FileDB, RRMError>)
        ensures
            match opened {
                Ok(db) => unique_names(rows_of(rows@)) && db@ == rows_of(rows@) && db.wf(),
                Err(e) => !unique_names(rows_of(rows@)) && e == RRMError::IndexUnavailable,
            },
    {
        if names_are_unique(&rows) {
            Ok(FileDB { rows })
        } else {
            Err(RRMError::IndexUnavailable)
        }
    }

    /// Records `file` behind the records that are there, unless its name is
    /// taken.
    pub fn add(&mut self, file: FileEntryDB) -> (added: Result<(), RRMError>)
        requires
            old(self).wf(),
        ensures
            final(self).wf(),
            match added {
                Ok(_) => !has_name(old(self)@, file.name@)
                    && final(self)@ == old(self)@.push(file@),
                Err(e) => has_name(old(self)@, file.name@) && e == RRMError::Duplicate
                    && final(self)@ == old(self)@,
            },
    {
        match position(&self.rows, &file.name) {
            Some(i) => {
                proof {
                    assert(rows_of(self.rows@)[i as int].0 == file.name@);
                }
                Err(RRMError::Duplicate)
            },
            None => {
                proof {
                    let before = rows_of(self.rows@);
                    assert(before.push(file@) =~= rows_of(self.rows@.push(file)));
                    assert forall|a: int, b: int| 0 <= a < b < before.len() + 1 implies (
                    #[trigger] before.push(file@)[a]).0 != (#[trigger] before.push(file@)[b]).0 by {
                        if b < before.len() {
                            assert(before[a].0 != before[b].0);
                        } else {
                            assert(self.rows[a].name@ != file.name@);
                        }
                    }
                    assert forall|k: int| 0 <= k < before.len() implies (#[trigger] before[k]).0
                        != file.name@ by {
                        assert(self.rows[k].name@ != file.name@);
                    }
                }
                self.rows.push(file);
                Ok(())
            },
        }
    }

    /// Takes the record that carries `name` out of the index. Where there is
    /// none, nothing changes: this is no error.
    pub fn remove(&mut self, name: &String) -> (removed: Result<(), RRMError>)
        requires
            old(self).wf(),
        ensures
            final(self).wf(),
            removed is Ok,
            final(self)@ == without(old(self)@, name@),
    {
        proof {
            lemma_without_keeps_the_rest(self@, name@);
        }
        match position(&self.rows, name) {
            Some(i) => {
                proof {
                    let before = rows_of(self.rows@);
                    assert(before[i as int].0 == name@);
                    lemma_without_present(before, name@, i as int);
                    assert(before.remove(i as int) =~= rows_of(self.rows@.remove(i as int)));
                }
                self.rows.remove(i);
            },
            None => {
                proof {
                    let before = rows_of(self.rows@);
                    assert forall|k: int| 0 <= k < before.len() implies (#[trigger] before[k]).0
                        != name@ by {
                        assert(self.rows[k].name@ != name@);
                    }
                    lemma_without_absent(before, name@);
                }
            },
        }
        Ok(())
    }

    /// Whether some record carries `name`.
    pub fn contains(&self, name: &String) -> (found: bool)
        ensures
            found == has_name(self@, name@),
    {
        match position(&self.rows, name) {
            Some(i) => {
                proof {
                    assert(rows_of(self.rows@)[i as int].0 == name@);
                }
                true
            },
            None => {
                proof {
                    let rows = rows_of(self.rows@);
                    assert forall|k: int| 0 <= k < rows.len() implies (#[trigger] rows[k]).0
                        != name@ by {
                        assert(self.rows[k].name@ != name@);
                    }
                }
                false
            },
        }
    }

    /// Looks up the record that carries `name`.
    pub fn get(&self, name: &String) -> (found: Result<FileEntryDB, RRMError>)
        requires
            self.wf(),
        ensures
            match found {
                Ok(entry) => entry.name@ == name@ && self@.contains(entry@),
                Err(e) => !has_name(self@, name@) && e == RRMError::NotFound,
            },
    {
        match position(&self.rows, name) {
            Some(i) => {
                let entry = FileEntryDB {
                    name: self.rows[i].name.clone(),
                    origin: self.rows[i].origin.clone(),
                };
                proof {
                    assert(rows_of(self.rows@)[i as int] == entry@);
                }
                Ok(entry)
            },
            None => {
                proof {
                    let rows = rows_of(self.rows@);
                    assert forall|k: int| 0 <= k < rows.len() implies (#[trigger] rows[k]).0
                        != name@ by {
                        assert(self.rows[k].name@ != name@);
                    }
                }
                Err(RRMError::NotFound)
            },
        }
    }

    /// Every record, in the order in which they were recorded.
    pub fn get_all(&self) -> (all: Result<Vec<FileEntryDB>, RRMError>)
        requires
            self.wf(),
        ensures
            all is Ok,
            rows_of(all->Ok_0@) == self@,
            unique_names(rows_of(all->Ok_0@)),
    {
        let mut entries: Vec<FileEntryDB> = Vec::new();
        let mut i: usize = 0;
        while i < self.rows.len()
            invariant
                i <= self.rows.len(),
                entries.len() == i,
                forall|k: int| 0 <= k < i ==> (#[trigger] entries[k])@ == self.rows[k]@,
            decreases self.rows.len() - i,
        {
            let entry = FileEntryDB {
                name: self.rows[i].name.clone(),
                origin: self.rows[i].origin.clone(),
            };
            entries.push(entry);
            i += 1;
        }
        proof {
            assert(rows_of(entries@) =~= rows_of(self.rows@));
        }
        Ok(entries)
    }

    /// Forgets every record.
    pub fn clear_db(&mut self)
        ensures
            final(self).wf(),
            final(self)@ == Seq::<Row>::empty(),
    {
        self.rows = Vec::new();
        proof {
            assert(rows_of(self.rows@) =~= Seq::<Row>::empty());
        }
    }
}

} // verus!

//! Subscriber records and the table that holds them.

use crate::text::{copy_opt, opt_view, trimmed};
use crate::timefmt::{is_valid_time_format, valid_time};
use vstd::prelude::*;
use vstd::string::*;

verus! {

/// What the bot keeps about one subscriber.
#[derive(Debug, PartialEq, Eq)]
pub struct UserSettings {
    /// The chat that the subscriber writes from.
    pub user_id: i64,
    /// The place to report the weather for, once chosen.
    pub city: Option<String>,
    /// The daily delivery time as `HH:MM`, once chosen.
    pub notification_time: Option<String>,
    /// Whether messages are written in the affectionate style.
    pub cute_mode: bool,
    /// The tag of the answer that the bot waits for, if any.
    pub state: Option<String>,
}

/// The mathematical content of a [`UserSettings`].
pub struct UserView {
    pub user_id: int,
    pub city: Option<Seq<char>>,
    pub notification_time: Option<Seq<char>>,
    pub cute_mode: bool,
    pub state: Option<Seq<char>>,
}

impl View for UserSettings {
    type V = UserView;

    open spec fn view(&self) -> UserView {
        UserView {
            user_id: self.user_id as int,
            city: opt_view(self.city),
            notification_time: opt_view(self.notification_time),
            cute_mode: self.cute_mode,
            state: opt_view(self.state),
        }
    }
}

impl Clone for UserSettings {
    fn clone(&self) -> (copy: Self)
        ensures
            copy@ == self@,
    {
        UserSettings {
            user_id: self.user_id,
            city: copy_opt(&self.city),
            notification_time: copy_opt(&self.notification_time),
            cute_mode: self.cute_mode,
            state: copy_opt(&self.state),
        }
    }
}

/// A record may be stored when its delivery time, if it has one, is a valid
/// `HH:MM` time.
pub open spec fn record_ok(u: UserView) -> bool {
    u.notification_time matches Some(t) ==> valid_time(t)
}

/// The record of a subscriber who has configured nothing yet.
pub open spec fn default_record(user_id: int) -> UserView {
    UserView { user_id, city: None, notification_time: None, cute_mode: false, state: None }
}

impl UserSettings {
    /// The record of a subscriber who has configured nothing yet.
    pub fn new(user_id: i64) -> (u: UserSettings)
        ensures
            u@ == default_record(user_id as int),
    {
        UserSettings { user_id, city: None, notification_time: None, cute_mode: false, state: None }
    }

    /// Whether the record may be stored.
    pub fn is_ok(&self) -> (ok: bool)
        ensures
            ok == record_ok(self@),
    {
        match &self.notification_time {
            Some(t) => is_valid_time_format(t.as_str()),
            None => true,
        }
    }
}

/// The content of an optional record.
pub open spec fn record_view(o: Option<UserSettings>) -> Option<UserView> {
    match o {
        Some(u) => Some(u@),
        None => None,
    }
}

/// The contents of a vector of records.
pub open spec fn table_view(records: Seq<UserSettings>) -> Seq<UserView> {
    records.map_values(|u: UserSettings| u@)
}

/// No two records of the table belong to the same subscriber.
pub open spec fn unique_ids(table: Seq<UserView>) -> bool {
    forall|i: int, j: int|
        0 <= i < j < table.len() ==> (#[trigger] table[i]).user_id != (#[trigger] table[j]).user_id
}

/// Every record of the table may be stored.
pub open spec fn all_ok(table: Seq<UserView>) -> bool {
    forall|i: int| 0 <= i < table.len() ==> record_ok(#[trigger] table[i])
}

/// What the table must satisfy at all times.
pub open spec fn table_ok(table: Seq<UserView>) -> bool {
    unique_ids(table) && all_ok(table)
}

/// The table has a record for the subscriber.
pub open spec fn has_id(table: Seq<UserView>, id: int) -> bool {
    exists|i: int| 0 <= i < table.len() && (#[trigger] table[i]).user_id == id
}

/// `i` is the place of the first record of the subscriber.
pub open spec fn is_first_with_id(table: Seq<UserView>, id: int, i: int) -> bool {
    &&& 0 <= i < table.len()
    &&& table[i].user_id == id
    &&& forall|j: int| 0 <= j < i ==> (#[trigger] table[j]).user_id != id
}

/// The place of the first record of the subscriber, where there is one.
pub open spec fn place_of(table: Seq<UserView>, id: int) -> int {
    choose|i: int| is_first_with_id(table, id, i)
}

/// The record that a lookup finds for the subscriber.
pub open spec fn stored(table: Seq<UserView>, id: int) -> Option<UserView> {
    if has_id(table, id) {
        Some(table[place_of(table, id)])
    } else {
        None
    }
}

/// The table after a record is put: it replaces the subscriber's record in
/// place, or is appended when the subscriber had none.
pub open spec fn upsert(table: Seq<UserView>, u: UserView) -> Seq<UserView> {
    if has_id(table, u.user_id) {
        table.update(place_of(table, u.user_id), u)
    } else {
        table.push(u)
    }
}

/// The first record of a subscriber stands at one place only.
pub proof fn lemma_first_is_place(table: Seq<UserView>, id: int, i: int)
    requires
        is_first_with_id(table, id, i),
    ensures
        has_id(table, id),
        place_of(table, id) == i,
{
    let c = place_of(table, id);
    assert(is_first_with_id(table, id, c));
    if c < i {
        assert(table[c].user_id != id);
    }
    if i < c {
        assert(table[i].user_id != id);
    }
}

/// A table that has a record for the subscriber has a first one.
pub proof fn lemma_has_first(table: Seq<UserView>, id: int)
    requires
        has_id(table, id),
    ensures
        is_first_with_id(table, id, place_of(table, id)),
{
    let w = choose|i: int| 0 <= i < table.len() && (#[trigger] table[i]).user_id == id;
    lemma_first_upto(table, id, w);
}

proof fn lemma_first_upto(table: Seq<UserView>, id: int, w: int)
    requires
        0 <= w < table.len(),
        table[w].user_id == id,
    ensures
        exists|i: int| is_first_with_id(table, id, i),
    decreases w,
{
    if forall|j: int| 0 <= j < w ==> (#[trigger] table[j]).user_id != id {
        assert(is_first_with_id(table, id, w));
    } else {
        let j = choose|j: int| 0 <= j < w && (#[trigger] table[j]).user_id == id;
        lemma_first_upto(table, id, j);
    }
}

/// What was found where the table is kept.
#[derive(Debug, PartialEq, Eq)]
pub enum Loaded {
    /// There was no file, or it could not be read.
    Absent,
    /// The file was read; `parsed` holds its records where it could be
    /// decoded, and nothing where it could not.
    Content { text: String, parsed: Option<Vec<UserSettings>> },
}

/// The records that a table starts from: those of a file that is not blank,
/// was decoded, and keeps the table's rules. In every other case the table
/// starts empty.
pub open spec fn loaded_table(loaded: Loaded) -> Seq<UserView> {
    match loaded {
        Loaded::Content { text, parsed: Some(records) } => if trimmed(text@).len() > 0 && table_ok(
            table_view(records@),
        ) {
            table_view(records@)
        } else {
            Seq::empty()
        },
        _ => Seq::empty(),
    }
}

/// The file held something, and it was not a table that keeps the rules: it
/// could not be decoded, or two of its records share a subscriber, or one
/// holds a malformed delivery time.
pub open spec fn is_corrupt(loaded: Loaded) -> bool {
    match loaded {
        Loaded::Content { text, parsed } => trimmed(text@).len() > 0 && match parsed {
            Some(records) => !table_ok(table_view(records@)),
            None => true,
        },
        Loaded::Absent => false,
    }
}

/// The ending of the name under which a corrupt file is kept.
pub const BACKUP_SUFFIX: &'static str = ".backup";

/// The table of subscriber records, with the place where it is kept.
pub struct JsonStorage {
    data: Vec<UserSettings>,
    file_path: String,
}

impl View for JsonStorage {
    type V = Seq<UserView>;

    closed spec fn view(&self) -> Seq<UserView> {
        table_view(self.data@)
    }
}

fn ids_differ_from(records: &Vec<UserSettings>, upto: usize, id: i64) -> (differ: bool)
    requires
        upto <= records.len(),
    ensures
        differ == forall|j: int| 0 <= j < upto ==> (#[trigger] records[j]).user_id != id,
{
    let mut j: usize = 0;
    while j < upto
        invariant
            j <= upto <= records.len(),
            forall|k: int| 0 <= k < j ==> (#[trigger] records[k]).user_id != id,
        decreases upto - j,
    {
        if records[j].user_id == id {
            return false;
        }
        j += 1;
    }
    true
}

/// Whether the records keep the table's rules.
pub fn check_table(records: &Vec<UserSettings>) -> (ok: bool)
    ensures
        ok == table_ok(table_view(records@)),
{
    let ghost table = table_view(records@);
    let mut i: usize = 0;
    while i < records.len()
        invariant
            i <= records.len(),
            table == table_view(records@),
            forall|a: int, b: int|
                0 <= a < b < i ==> (#[trigger] table[a]).user_id != (#[trigger] table[b]).user_id,
            forall|a: int| 0 <= a < i ==> record_ok(#[trigger] table[a]),
        decreases records.len() - i,
    {
        assert(table[i as int] == records[i as int]@);
        if !records[i].is_ok() {
            return false;
        }
        if !ids_differ_from(records, i, records[i].user_id) {
            proof {
                let j = choose|j: int| 0 <= j < i && (#[trigger] records[j]).user_id == records[i as int].user_id;
                assert(table[j] == records[j]@);
                assert(table[j].user_id == table[i as int].user_id);
            }
            return false;
        }
        assert forall|a: int, b: int| 0 <= a < b < i + 1 implies (#[trigger] table[a]).user_id != (
        #[trigger] table[b]).user_id by {
            if b == i {
                assert(table[a] == records[a]@);
            }
        }
        i += 1;
    }
    true
}

impl JsonStorage {
    #[verifier::type_invariant]
    spec fn inv(self) -> bool {
        table_ok(table_view(self.data@))
    }

    /// The place where the table is kept.
    pub closed spec fn path(&self) -> Seq<char> {
        self.file_path@
    }

    /// Starts the table from what was found at `path`. A file that is
    /// missing, unreadable or blank gives an empty table. So does a corrupt
    /// one, and then the second result names the sibling file that the
    /// corrupt one is to be copied to.
    pub fn new(path: &str, loaded: Loaded) -> (r: (JsonStorage, Option<String>))
        ensures
            r.0@ == loaded_table(loaded),
            r.0.path() == path@,
            table_ok(r.0@),
            opt_view(r.1) == (if is_corrupt(loaded) {
                Some(path@ + BACKUP_SUFFIX@)
            } else {
                None
            }),
    {
        let file_path = String::from_str(path);
        match loaded {
            Loaded::Absent => (JsonStorage { data: Vec::new(), file_path }, None),
            Loaded::Content { text, parsed } => {
                if text.as_str().trim().is_empty() {
                    return (JsonStorage { data: Vec::new(), file_path }, None);
                }
                match parsed {
                    Some(records) => {
                        if check_table(&records) {
                            (JsonStorage { data: records, file_path }, None)
                        } else {
                            let mut backup = String::from_str(path);
                            backup.append(BACKUP_SUFFIX);
                            (JsonStorage { data: Vec::new(), file_path }, Some(backup))
                        }
                    },
                    None => {
                        let mut backup = String::from_str(path);
                        backup.append(BACKUP_SUFFIX);
                        (JsonStorage { data: Vec::new(), file_path }, Some(backup))
                    },
                }
            },
        }
    }

    /// The path of the file that holds the table.
    pub fn file_path(&self) -> (p: &str)
        ensures
            p@ == self.path(),
    {
        self.file_path.as_str()
    }

    /// A copy of the subscriber's record, if the table has one.
    pub fn get_user(&self, user_id: i64) -> (found: Option<UserSettings>)
        ensures
            record_view(found) == stored(self@, user_id as int),
            table_ok(self@),
    {
        proof {
            use_type_invariant(self);
        }
        let ghost table = self@;
        let mut i: usize = 0;
        while i < self.data.len()
            invariant
                i <= self.data.len(),
                table == table_view(self.data@),
                table_ok(table),
                forall|j: int| 0 <= j < i ==> (#[trigger] table[j]).user_id != user_id,
            decreases self.data.len() - i,
        {
            if self.data[i].user_id == user_id {
                let found = self.data[i].clone();
                proof {
                    assert(table[i as int] == self.data[i as int]@);
                    lemma_first_is_place(table, user_id as int, i as int);
                }
                return Some(found);
            }
            assert(table[i as int] == self.data[i as int]@);
            i += 1;
        }
        None
    }

    /// Puts a record: it takes the place of the subscriber's record, or is
    /// appended when the subscriber had none. A record with a malformed
    /// delivery time is not taken and leaves the table as it was; the
    /// result says whether the record was taken.
    pub fn save_user(&mut self, user: UserSettings) -> (saved: bool)
        ensures
            saved == record_ok(user@),
            final(self)@ == (if saved {
                upsert(old(self)@, user@)
            } else {
                old(self)@
            }),
            final(self).path() == old(self).path(),
            table_ok(final(self)@),
    {
        proof {
            use_type_invariant(&*self);
        }
        if !user.is_ok() {
            return false;
        }
        let ghost table = self@;
        let ghost u = user@;
        proof {
            lemma_upsert_keeps_rules(table, u);
        }
        let mut data: Vec<UserSettings> = Vec::new();
        std::mem::swap(&mut self.data, &mut data);
        let mut i: usize = 0;
        while i < data.len()
            invariant
                i <= data.len(),
                table == table_view(data@),
                forall|j: int| 0 <= j < i ==> (#[trigger] table[j]).user_id != user.user_id,
            ensures
                i < data.len() ==> data[i as int].user_id == user.user_id,
            decreases data.len() - i,
        {
            if data[i].user_id == user.user_id {
                break;
            }
            assert(table[i as int] == data[i as int]@);
            i += 1;
        }
        if i < data.len() {
            proof {
                assert(table[i as int] == data[i as int]@);
                lemma_first_is_place(table, u.user_id, i as int);
            }
            data.set(i, user);
            assert(table_view(data@) =~= table.update(i as int, u));
        } else {
            data.push(user);
            assert(table_view(data@) =~= table.push(u));
        }
        self.data = data;
        true
    }

    /// A copy of the whole table, in the order of the table.
    pub fn get_all_users(&self) -> (all: Vec<UserSettings>)
        ensures
            table_view(all@) == self@,
            table_ok(self@),
    {
        proof {
            use_type_invariant(self);
        }
        let mut all: Vec<UserSettings> = Vec::new();
        let mut i: usize = 0;
        while i < self.data.len()
            invariant
                i <= self.data.len(),
                all.len() == i,
                forall|j: int| 0 <= j < i ==> (#[trigger] all[j])@ == self.data[j]@,
            decreases self.data.len() - i,
        {
            all.push(self.data[i].clone());
            i += 1;
        }
        assert(table_view(all@) =~= table_view(self.data@));
        all
    }
}

/// Putting a record that may be stored keeps the table's rules.
pub proof fn lemma_upsert_keeps_rules(table: Seq<UserView>, u: UserView)
    requires
        table_ok(table),
        record_ok(u),
    ensures
        table_ok(upsert(table, u)),
{
    let after = upsert(table, u);
    if has_id(table, u.user_id) {
        lemma_has_first(table, u.user_id);
        let p = place_of(table, u.user_id);
        assert forall|i: int, j: int| 0 <= i < j < after.len() implies (#[trigger] after[i]).user_id != (
        #[trigger] after[j]).user_id by {
            assert(after[i].user_id == table[i].user_id);
            assert(after[j].user_id == table[j].user_id);
        }
        assert forall|i: int| 0 <= i < after.len() implies record_ok(#[trigger] after[i]) by {
            if i != p {
                assert(after[i] == table[i]);
            }
        }
    } else {
        assert forall|i: int, j: int| 0 <= i < j < after.len() implies (#[trigger] after[i]).user_id != (
        #[trigger] after[j]).user_id by {
            if j == table.len() {
                assert(after[i] == table[i]);
            } else {
                assert(after[i] == table[i]);
                assert(after[j] == table[j]);
            }
        }
        assert forall|i: int| 0 <= i < after.len() implies record_ok(#[trigger] after[i]) by {
            if i < table.len() {
                assert(after[i] == table[i]);
            }
        }
    }
}

/// `i` is the place of the only record of the subscriber.
pub open spec fn is_only_with_id(table: Seq<UserView>, id: int, i: int) -> bool {
    &&& 0 <= i < table.len()
    &&& table[i].user_id == id
    &&& forall|j: int| 0 <= j < table.len() && j != i ==> (#[trigger] table[j]).user_id != id
}

/// A lookup after a put finds the record that was put.
pub proof fn law_put_then_get(table: Seq<UserView>, u: UserView)
    ensures
        stored(upsert(table, u), u.user_id) == Some(u),
{
    let after = upsert(table, u);
    if has_id(table, u.user_id) {
        lemma_has_first(table, u.user_id);
        let p = place_of(table, u.user_id);
        assert forall|j: int| 0 <= j < p implies (#[trigger] after[j]).user_id != u.user_id by {
            assert(after[j] == table[j]);
        }
        lemma_first_is_place(after, u.user_id, p);
    } else {
        let p = table.len() as int;
        assert forall|j: int| 0 <= j < p implies (#[trigger] after[j]).user_id != u.user_id by {
            assert(after[j] == table[j]);
        }
        lemma_first_is_place(after, u.user_id, p);
    }
}

/// A put leaves the records of all other subscribers as they were.
pub proof fn law_put_keeps_others(table: Seq<UserView>, u: UserView, id: int)
    requires
        id != u.user_id,
    ensures
        stored(upsert(table, u), id) == stored(table, id),
{
    let after = upsert(table, u);
    if has_id(table, u.user_id) {
        lemma_has_first(table, u.user_id);
    }
    let q = place_of(table, u.user_id);
    assert(after.len() >= table.len());
    assert forall|j: int| 0 <= j < table.len() implies ((#[trigger] after[j]).user_id == id
        <==> table[j].user_id == id) && (table[j].user_id == id ==> after[j] == table[j]) by {
        if has_id(table, u.user_id) && j == q {
            assert(after[j] == u);
        } else {
            assert(after[j] == table[j]);
        }
    }
    if has_id(table, id) {
        lemma_has_first(table, id);
        let p = place_of(table, id);
        assert(after[p].user_id == id);
        assert forall|j: int| 0 <= j < p implies (#[trigger] after[j]).user_id != id by {
            assert(table[j].user_id != id);
        }
        lemma_first_is_place(after, id, p);
    } else {
        if has_id(after, id) {
            let w = choose|i: int| 0 <= i < after.len() && (#[trigger] after[i]).user_id == id;
            if w < table.len() {
                assert(table[w].user_id == id);
            } else {
                assert(after[w] == u);
            }
            assert(false);
        }
    }
}

/// Putting a record a second time changes nothing.
pub proof fn law_put_is_idempotent(table: Seq<UserView>, u: UserView)
    ensures
        upsert(upsert(table, u), u) == upsert(table, u),
{
    let once = upsert(table, u);
    law_put_then_get(table, u);
    lemma_has_first(once, u.user_id);
    let p = place_of(once, u.user_id);
    assert(once[p] == u);
    assert(once.update(p, u) =~= once);
}

/// In a table without two records of one subscriber, the record that was
/// put, once or twice, is the subscriber's only record: there is one
/// entry, not two.
pub proof fn law_put_leaves_one_entry(table: Seq<UserView>, u: UserView)
    requires
        unique_ids(table),
    ensures
        upsert(upsert(table, u), u).len() == upsert(table, u).len(),
        exists|i: int|
            is_only_with_id(upsert(table, u), u.user_id, i) && upsert(table, u)[i] == u,
        upsert(table, u).len() == if has_id(table, u.user_id) {
            table.len()
        } else {
            table.len() + 1
        },
{
    law_put_is_idempotent(table, u);
    law_put_then_get(table, u);
    let once = upsert(table, u);
    lemma_has_first(once, u.user_id);
    let p = place_of(once, u.user_id);
    if has_id(table, u.user_id) {
        lemma_has_first(table, u.user_id);
        let q = place_of(table, u.user_id);
        assert forall|j: int| 0 <= j < once.len() && j != p implies (#[trigger] once[j]).user_id
            != u.user_id by {
            if j < q {
                assert(table[j].user_id != u.user_id);
            } else if j > q {
                assert(table[q].user_id != table[j].user_id);
                assert(once[j] == table[j]);
            } else {
                assert(once[q] == u);
                if p < q {
                    assert(once[p] == table[p]);
                    assert(table[p].user_id != u.user_id);
                }
            }
        }
    } else {
        assert forall|j: int| 0 <= j < once.len() && j != p implies (#[trigger] once[j]).user_id
            != u.user_id by {
            if j < table.len() {
                assert(once[j] == table[j]);
                assert(table[j].user_id != u.user_id);
            } else {
                assert(once[j] == u);
                if p < table.len() {
                    assert(once[p] == table[p]);
                    assert(table[p].user_id != u.user_id);
                }
            }
        }
    }
    assert(is_only_with_id(once, u.user_id, p));
}

/// Starting again from the records of a table, kept in a file that is not
/// blank, gives that table: every lookup finds what it found before.
pub proof fn law_reload_keeps_table(text: String, records: Vec<UserSettings>, id: int)
    requires
        trimmed(text@).len() > 0,
        table_ok(table_view(records@)),
    ensures
        loaded_table(Loaded::Content { text, parsed: Some(records) }) == table_view(records@),
        !is_corrupt(Loaded::Content { text, parsed: Some(records) }),
        stored(loaded_table(Loaded::Content { text, parsed: Some(records) }), id) == stored(
            table_view(records@),
            id,
        ),
{
}

} // verus!

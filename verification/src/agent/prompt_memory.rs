//! The prompt memory: for each kind of task the system prompt that served it
//! best, how often it was used and with what success, and the corrections
//! that users gave and that are not yet worked into the prompt.
//!
//! Kinds of task are told apart by their exact names. The memory keeps them
//! in the order in which they were first stored.

use crate::actions::parser::option_view;
use crate::clock::now_text;
use crate::number::{decimal, push_decimal};
use crate::text::{
    from_chars, insert_line, lex_less, lines_view, push_chars, push_str, sort_lines, str_eq,
    str_less, to_chars,
};
use vstd::prelude::*;

verus! {

/// A correction that a user gave while a task ran.
#[derive(Debug, Clone, PartialEq, Eq)]
pub struct CorrectionRecord {
    /// What the user told the executor to do.
    pub content: String,
    /// What was going on when the user said so.
    pub context: Option<String>,
    /// When the user said so.
    pub timestamp: String,
}

/// The mathematical value of a [`CorrectionRecord`].
pub struct CorrectionView {
    pub content: Seq<char>,
    pub context: Option<Seq<char>>,
    pub timestamp: Seq<char>,
}

impl View for CorrectionRecord {
    type V = CorrectionView;

    open spec fn view(&self) -> CorrectionView {
        CorrectionView {
            content: self.content@,
            context: option_view(self.context),
            timestamp: self.timestamp@,
        }
    }
}

impl CorrectionRecord {
    /// A correction given now.
    pub fn new(content: &str, context: Option<String>) -> (r: Self)
        ensures
            r@.content == content@,
            r@.context == option_view(context),
    {
        CorrectionRecord { content: String::from_str(content), context, timestamp: now_text() }
    }
}

/// What the memory holds for one kind of task.
#[derive(Debug, Clone, PartialEq, Eq)]
pub struct PromptEntry {
    /// The system prompt.
    pub system_prompt: String,
    /// When the entry last changed.
    pub last_updated: String,
    /// How often a task of this kind succeeded.
    pub success_count: u32,
    /// How often the prompt was used.
    pub usage_count: u32,
    /// Notes on the prompt.
    pub notes: Option<String>,
    /// Corrections that are not yet worked into the prompt.
    pub corrections: Vec<CorrectionRecord>,
}

/// The mathematical value of a [`PromptEntry`].
pub struct PromptEntryView {
    pub system_prompt: Seq<char>,
    pub last_updated: Seq<char>,
    pub success_count: u32,
    pub usage_count: u32,
    pub notes: Option<Seq<char>>,
    pub corrections: Seq<CorrectionView>,
}

/// The values of a list of corrections.
pub open spec fn corrections_view(list: Seq<CorrectionRecord>) -> Seq<CorrectionView> {
    list.map_values(|c: CorrectionRecord| c@)
}

impl View for PromptEntry {
    type V = PromptEntryView;

    open spec fn view(&self) -> PromptEntryView {
        PromptEntryView {
            system_prompt: self.system_prompt@,
            last_updated: self.last_updated@,
            success_count: self.success_count,
            usage_count: self.usage_count,
            notes: option_view(self.notes),
            corrections: corrections_view(self.corrections@),
        }
    }
}

/// The summary of corrections from the `n`-th on: one numbered line each,
/// the lines joined by line breaks.
pub open spec fn numbered_lines(list: Seq<CorrectionView>) -> Seq<char>
    decreases list.len(),
{
    if list.len() == 0 {
        Seq::empty()
    } else {
        let line = decimal(list.len()) + ". "@ + list.last().content;
        if list.len() == 1 {
            line
        } else {
            numbered_lines(list.drop_last()) + "\n"@ + line
        }
    }
}

impl PromptEntryView {
    /// A new entry with the prompt `prompt`, stamped `stamp`: never used, no
    /// notes, no corrections.
    pub open spec fn fresh(prompt: Seq<char>, stamp: Seq<char>) -> PromptEntryView {
        PromptEntryView {
            system_prompt: prompt,
            last_updated: stamp,
            success_count: 0,
            usage_count: 0,
            notes: None,
            corrections: Seq::empty(),
        }
    }

    /// The entry with another prompt, stamped `stamp`.
    pub open spec fn with_prompt(self, prompt: Seq<char>, stamp: Seq<char>) -> PromptEntryView {
        PromptEntryView { system_prompt: prompt, last_updated: stamp, ..self }
    }

    /// The entry after one more use. At the largest count that fits nothing
    /// changes.
    pub open spec fn used(self, success: bool) -> PromptEntryView {
        if self.usage_count < u32::MAX {
            PromptEntryView {
                usage_count: (self.usage_count + 1) as u32,
                success_count: if success && self.success_count < u32::MAX {
                    (self.success_count + 1) as u32
                } else {
                    self.success_count
                },
                ..self
            }
        } else {
            self
        }
    }

    /// The entry with one more correction, stamped `stamp`.
    pub open spec fn corrected(self, correction: CorrectionView, stamp: Seq<char>)
        -> PromptEntryView {
        PromptEntryView {
            corrections: self.corrections.push(correction),
            last_updated: stamp,
            ..self
        }
    }

    /// The entry without its corrections.
    pub open spec fn cleared(self) -> PromptEntryView {
        PromptEntryView { corrections: Seq::empty(), ..self }
    }

    /// The share of uses that succeeded, as a pair of counts; none before
    /// the first use.
    pub open spec fn success_rate(self) -> Option<(u32, u32)> {
        if self.usage_count == 0 {
            None
        } else {
            Some((self.success_count, self.usage_count))
        }
    }
}

impl PromptEntry {
    /// A new entry with the prompt `system_prompt`.
    pub fn new(system_prompt: &str) -> (r: Self)
        ensures
            r@ == PromptEntryView::fresh(system_prompt@, r@.last_updated),
    {
        let r = PromptEntry {
            system_prompt: String::from_str(system_prompt),
            last_updated: now_text(),
            success_count: 0,
            usage_count: 0,
            notes: None,
            corrections: Vec::new(),
        };
        assert(corrections_view(r.corrections@) =~= Seq::empty());
        r
    }

    /// Replaces the prompt.
    pub fn update(&mut self, new_prompt: &str)
        ensures
            final(self)@ == old(self)@.with_prompt(new_prompt@, final(self)@.last_updated),
    {
        self.system_prompt = String::from_str(new_prompt);
        self.last_updated = now_text();
    }

    /// Counts one more use of the prompt, and its success.
    pub fn record_usage(&mut self, success: bool)
        ensures
            final(self)@ == old(self)@.used(success),
    {
        if self.usage_count < u32::MAX {
            self.usage_count = self.usage_count + 1;
            if success && self.success_count < u32::MAX {
                self.success_count = self.success_count + 1;
            }
        }
    }

    /// The share of uses that succeeded, as the pair of the number of
    /// successes and the number of uses; none before the first use.
    pub fn success_rate(&self) -> (r: Option<(u32, u32)>)
        ensures
            r == self@.success_rate(),
    {
        if self.usage_count == 0 {
            None
        } else {
            Some((self.success_count, self.usage_count))
        }
    }

    /// Adds a correction.
    pub fn add_correction(&mut self, content: &str, context: Option<String>)
        ensures
            final(self)@.corrections.len() == old(self)@.corrections.len() + 1,
            final(self)@.corrections.last().content == content@,
            final(self)@.corrections.last().context == option_view(context),
            final(self)@ == old(self)@.corrected(
                final(self)@.corrections.last(),
                final(self)@.last_updated,
            ),
    {
        let ghost before = corrections_view(self.corrections@);
        let record = CorrectionRecord::new(content, context);
        self.corrections.push(record);
        assert(corrections_view(self.corrections@) =~= before.push(record@));
        self.last_updated = now_text();
    }

    /// The number of corrections that are not yet worked into the prompt.
    pub fn pending_corrections_count(&self) -> (r: usize)
        ensures
            r == self@.corrections.len(),
    {
        self.corrections.len()
    }

    /// Forgets the corrections, once they are worked into the prompt.
    pub fn clear_corrections(&mut self)
        ensures
            final(self)@ == old(self)@.cleared(),
    {
        self.corrections.clear();
        assert(corrections_view(self.corrections@) =~= Seq::empty());
    }

    /// The corrections as numbered lines.
    pub fn corrections_summary(&self) -> (r: String)
        ensures
            r@ == numbered_lines(self@.corrections),
    {
        let ghost all = corrections_view(self.corrections@);
        let mut out: Vec<char> = Vec::new();
        let mut i: usize = 0;
        while i < self.corrections.len()
            invariant
                i <= self.corrections.len(),
                all == corrections_view(self.corrections@),
                out@ == numbered_lines(all.take(i as int)),
            decreases self.corrections.len() - i,
        {
            let ghost next = all.take(i + 1);
            assert(next.drop_last() == all.take(i as int));
            assert(next.last().content == self.corrections@[i as int].content@);
            if i > 0 {
                push_str(&mut out, "\n");
            }
            push_decimal(&mut out, (i + 1) as u128);
            push_str(&mut out, ". ");
            push_str(&mut out, self.corrections[i].content.as_str());
            assert(out@ =~= numbered_lines(next));
            i += 1;
        }
        assert(all.take(self.corrections.len() as int) == all);
        from_chars(&out)
    }
}

impl CorrectionRecord {
    /// A copy of the record.
    pub fn duplicate(&self) -> (r: Self)
        ensures
            r@ == self@,
    {
        CorrectionRecord {
            content: self.content.clone(),
            context: match &self.context {
                Some(t) => Some(t.clone()),
                None => None,
            },
            timestamp: self.timestamp.clone(),
        }
    }
}

impl PromptEntry {
    /// A copy of the entry.
    pub fn duplicate(&self) -> (r: Self)
        ensures
            r@ == self@,
    {
        let mut corrections: Vec<CorrectionRecord> = Vec::new();
        let mut i: usize = 0;
        while i < self.corrections.len()
            invariant
                i <= self.corrections.len(),
                corrections_view(corrections@) == corrections_view(self.corrections@).take(i as int),
            decreases self.corrections.len() - i,
        {
            let ghost before = corrections_view(corrections@);
            let copy = self.corrections[i].duplicate();
            corrections.push(copy);
            assert(corrections_view(corrections@) =~= before.push(copy@));
            assert(corrections_view(self.corrections@).take(i + 1) =~= corrections_view(
                self.corrections@,
            ).take(i as int).push(self.corrections@[i as int]@));
            i += 1;
        }
        assert(corrections_view(self.corrections@).take(self.corrections.len() as int)
            == corrections_view(self.corrections@));
        PromptEntry {
            system_prompt: self.system_prompt.clone(),
            last_updated: self.last_updated.clone(),
            success_count: self.success_count,
            usage_count: self.usage_count,
            notes: match &self.notes {
                Some(t) => Some(t.clone()),
                None => None,
            },
            corrections,
        }
    }
}

/// The kinds of task and their entries, as mathematical values.
pub open spec fn slots_view(entries: Seq<(String, PromptEntry)>) -> Seq<
    (Seq<char>, PromptEntryView),
> {
    entries.map_values(|e: (String, PromptEntry)| (e.0@, e.1@))
}

/// The index of the first slot for the kind `key`, or -1.
pub open spec fn slot_index(slots: Seq<(Seq<char>, PromptEntryView)>, key: Seq<char>) -> int
    decreases slots.len(),
{
    if slots.len() == 0 {
        -1
    } else {
        let before = slot_index(slots.drop_last(), key);
        if before >= 0 {
            before
        } else if slots.last().0 == key {
            slots.len() - 1
        } else {
            -1
        }
    }
}

/// Whether no two slots are for the same kind.
pub open spec fn distinct_keys(slots: Seq<(Seq<char>, PromptEntryView)>) -> bool {
    forall|i: int, j: int|
        0 <= i < j < slots.len() ==> (#[trigger] slots[i]).0 != (#[trigger] slots[j]).0
}

/// The entry for the kind `key`.
pub open spec fn slot_entry(slots: Seq<(Seq<char>, PromptEntryView)>, key: Seq<char>) -> Option<
    PromptEntryView,
> {
    let i = slot_index(slots, key);
    if i < 0 {
        None
    } else {
        Some(slots[i].1)
    }
}

/// `slots` with `entry` stored for the kind `key`: in place where the kind
/// is known, at the end where it is new.
pub open spec fn put(
    slots: Seq<(Seq<char>, PromptEntryView)>,
    key: Seq<char>,
    entry: PromptEntryView,
) -> Seq<(Seq<char>, PromptEntryView)> {
    let i = slot_index(slots, key);
    if i < 0 {
        slots.push((key, entry))
    } else {
        slots.update(i, (key, entry))
    }
}

/// `slots` without the slot for the kind `key`.
pub open spec fn without(slots: Seq<(Seq<char>, PromptEntryView)>, key: Seq<char>) -> Seq<
    (Seq<char>, PromptEntryView),
> {
    let i = slot_index(slots, key);
    if i < 0 {
        slots
    } else {
        slots.remove(i)
    }
}

/// `slot_index` gives the first slot for the kind, and -1 only where there
/// is none.
pub proof fn lemma_slot_index(slots: Seq<(Seq<char>, PromptEntryView)>, key: Seq<char>)
    ensures
        -1 <= slot_index(slots, key) < slots.len(),
        slot_index(slots, key) >= 0 ==> slots[slot_index(slots, key)].0 == key,
        forall|j: int|
            0 <= j < slots.len() && (j < slot_index(slots, key) || slot_index(slots, key) < 0)
                ==> (#[trigger] slots[j]).0 != key,
    decreases slots.len(),
{
    if slots.len() > 0 {
        let shorter = slots.drop_last();
        lemma_slot_index(shorter, key);
        assert forall|j: int|
            0 <= j < slots.len() && (j < slot_index(slots, key) || slot_index(slots, key)
                < 0) implies (#[trigger] slots[j]).0 != key by {
            if j < shorter.len() {
                assert(slots[j] == shorter[j]);
            }
        }
        if slot_index(shorter, key) >= 0 {
            assert(shorter[slot_index(shorter, key)] == slots[slot_index(shorter, key)]);
        }
    }
}

/// A slot for the kind that no earlier slot is for is the one that
/// `slot_index` finds.
pub proof fn lemma_slot_index_is(slots: Seq<(Seq<char>, PromptEntryView)>, key: Seq<char>, i: int)
    requires
        0 <= i < slots.len(),
        slots[i].0 == key,
        forall|j: int| 0 <= j < i ==> (#[trigger] slots[j]).0 != key,
    ensures
        slot_index(slots, key) == i,
{
    lemma_slot_index(slots, key);
}

/// Where no slot is for the kind, `slot_index` is -1.
pub proof fn lemma_slot_index_none(slots: Seq<(Seq<char>, PromptEntryView)>, key: Seq<char>)
    requires
        forall|j: int| 0 <= j < slots.len() ==> (#[trigger] slots[j]).0 != key,
    ensures
        slot_index(slots, key) == -1,
{
    lemma_slot_index(slots, key);
}

/// Storing an entry makes it the entry of its kind, leaves the entries of
/// all other kinds as they were, and keeps the kinds distinct.
pub proof fn lemma_put(
    slots: Seq<(Seq<char>, PromptEntryView)>,
    key: Seq<char>,
    entry: PromptEntryView,
    other: Seq<char>,
)
    ensures
        slot_entry(put(slots, key, entry), key) == Some(entry),
        other != key ==> slot_entry(put(slots, key, entry), other) == slot_entry(slots, other),
        distinct_keys(slots) ==> distinct_keys(put(slots, key, entry)),
{
    let after = put(slots, key, entry);
    let i = slot_index(slots, key);
    lemma_slot_index(slots, key);
    lemma_slot_index(slots, other);
    if i < 0 {
        assert forall|j: int| 0 <= j < slots.len() implies (#[trigger] after[j]).0 != key by {
            assert(after[j] == slots[j]);
        }
        lemma_slot_index_is(after, key, slots.len() as int);
    } else {
        assert forall|j: int| 0 <= j < i implies (#[trigger] after[j]).0 != key by {
            assert(after[j] == slots[j]);
        }
        lemma_slot_index_is(after, key, i);
    }
    if other != key {
        let k = slot_index(slots, other);
        if k < 0 {
            assert forall|j: int| 0 <= j < after.len() implies (#[trigger] after[j]).0
                != other by {
                if j < slots.len() && j != i {
                    assert(after[j] == slots[j]);
                }
            }
            lemma_slot_index_none(after, other);
        } else {
            assert(k != i);
            assert(after[k] == slots[k]);
            assert forall|j: int| 0 <= j < k implies (#[trigger] after[j]).0 != other by {
                if j != i {
                    assert(after[j] == slots[j]);
                }
            }
            lemma_slot_index_is(after, other, k);
        }
    }
    if distinct_keys(slots) {
        assert forall|a: int, b: int| 0 <= a < b < after.len() implies (#[trigger] after[a]).0 != (
        #[trigger] after[b]).0 by {
            if i < 0 {
                if b < slots.len() {
                    assert(after[a] == slots[a] && after[b] == slots[b]);
                } else {
                    assert(after[a] == slots[a]);
                }
            } else {
                assert(after[a].0 == slots[a].0 && after[b].0 == slots[b].0);
            }
        }
    }
}

/// Taking a kind out leaves no entry for it, leaves the entries of all
/// other kinds as they were, and keeps the kinds distinct.
pub proof fn lemma_without(
    slots: Seq<(Seq<char>, PromptEntryView)>,
    key: Seq<char>,
    other: Seq<char>,
)
    requires
        distinct_keys(slots),
    ensures
        slot_entry(without(slots, key), key) is None,
        other != key ==> slot_entry(without(slots, key), other) == slot_entry(slots, other),
        distinct_keys(without(slots, key)),
{
    let after = without(slots, key);
    let i = slot_index(slots, key);
    lemma_slot_index(slots, key);
    lemma_slot_index(slots, other);
    if i >= 0 {
        assert forall|j: int| 0 <= j < after.len() implies (#[trigger] after[j]).0 != key by {
            if j < i {
                assert(after[j] == slots[j]);
            } else {
                assert(after[j] == slots[j + 1]);
            }
        }
        lemma_slot_index_none(after, key);
        if other != key {
            let k = slot_index(slots, other);
            if k < 0 {
                assert forall|j: int| 0 <= j < after.len() implies (#[trigger] after[j]).0
                    != other by {
                    if j < i {
                        assert(after[j] == slots[j]);
                    } else {
                        assert(after[j] == slots[j + 1]);
                    }
                }
                lemma_slot_index_none(after, other);
            } else {
                let k2 = if k < i {
                    k
                } else {
                    k - 1
                };
                assert(after[k2] == slots[k]);
                assert forall|j: int| 0 <= j < k2 implies (#[trigger] after[j]).0 != other by {
                    if j < i {
                        assert(after[j] == slots[j]);
                    } else {
                        assert(after[j] == slots[j + 1]);
                    }
                }
                lemma_slot_index_is(after, other, k2);
            }
        }
        assert forall|a: int, b: int| 0 <= a < b < after.len() implies (#[trigger] after[a]).0 != (
        #[trigger] after[b]).0 by {
            let a2 = if a < i {
                a
            } else {
                a + 1
            };
            let b2 = if b < i {
                b
            } else {
                b + 1
            };
            assert(after[a] == slots[a2] && after[b] == slots[b2]);
        }
    }
}

/// The prompt memory.
#[derive(Debug, Clone, PartialEq, Eq)]
pub struct PromptMemory {
    entries: Vec<(String, PromptEntry)>,
    version: String,
}

impl PromptMemory {
    /// The kinds of task and their entries, in the order in which the kinds
    /// were first stored.
    pub closed spec fn slots(self) -> Seq<(Seq<char>, PromptEntryView)> {
        slots_view(self.entries@)
    }

    /// A memory is well formed where no two of its slots are for the same
    /// kind of task. Every memory made by this module is.
    pub open spec fn wf(self) -> bool {
        distinct_keys(self.slots())
    }

    /// The version of the memory's format.
    pub closed spec fn format_version(self) -> Seq<char> {
        self.version@
    }

    /// The entry for the kind `task_type`.
    pub open spec fn entry(self, task_type: Seq<char>) -> Option<PromptEntryView> {
        slot_entry(self.slots(), task_type)
    }

    /// The number of corrections that wait for the kind `task_type`.
    pub open spec fn pending(self, task_type: Seq<char>) -> nat {
        match self.entry(task_type) {
            Some(e) => e.corrections.len(),
            None => 0,
        }
    }

    /// An empty memory of the current format, "1.0".
    pub fn new() -> (r: Self)
        ensures
            r.wf(),
            r.slots() == Seq::<(Seq<char>, PromptEntryView)>::empty(),
            r.format_version() == "1.0"@,
    {
        let r = PromptMemory { entries: Vec::new(), version: String::from_str("1.0") };
        assert(slots_view(r.entries@) =~= Seq::empty());
        r
    }

    /// The memory with the version `version` of its format, as a stored
    /// memory names it. The prompts stay as they are.
    pub fn with_version(self, version: &str) -> (r: Self)
        ensures
            r.slots() == self.slots(),
            r.format_version() == version@,
            self.wf() ==> r.wf(),
    {
        PromptMemory { entries: self.entries, version: String::from_str(version) }
    }

    /// The index of the slot for the kind `task_type`.
    fn index_of(&self, task_type: &str) -> (r: Option<usize>)
        ensures
            match r {
                Some(i) => i < self.slots().len() && i == slot_index(self.slots(), task_type@),
                None => slot_index(self.slots(), task_type@) == -1,
            },
    {
        let ghost all = slots_view(self.entries@);
        let mut i: usize = 0;
        while i < self.entries.len()
            invariant
                i <= self.entries.len(),
                all == slots_view(self.entries@),
                forall|j: int| 0 <= j < i ==> (#[trigger] all[j]).0 != task_type@,
            decreases self.entries.len() - i,
        {
            if str_eq(self.entries[i].0.as_str(), task_type) {
                proof {
                    lemma_slot_index_is(all, task_type@, i as int);
                }
                return Some(i);
            }
            i += 1;
        }
        proof {
            lemma_slot_index_none(all, task_type@);
        }
        None
    }

    /// Stores `entry` for the kind `task_type`.
    pub fn insert_entry(&mut self, task_type: &str, entry: PromptEntry)
        ensures
            final(self).slots() == put(old(self).slots(), task_type@, entry@),
            final(self).entry(task_type@) == Some(entry@),
            final(self).format_version() == old(self).format_version(),
            old(self).wf() ==> final(self).wf(),
    {
        proof {
            lemma_put(self.slots(), task_type@, entry@, task_type@);
        }
        let ghost before = slots_view(self.entries@);
        let ghost slot = (task_type@, entry@);
        match self.index_of(task_type) {
            Some(i) => {
                self.entries.set(i, (String::from_str(task_type), entry));
                assert(slots_view(self.entries@) =~= before.update(i as int, slot));
            },
            None => {
                self.entries.push((String::from_str(task_type), entry));
                assert(slots_view(self.entries@) =~= before.push(slot));
            },
        }
    }

    /// The entry for the kind `task_type`.
    pub fn get(&self, task_type: &str) -> (r: Option<&PromptEntry>)
        ensures
            match r {
                Some(e) => self.entry(task_type@) == Some(e@),
                None => self.entry(task_type@) is None,
            },
    {
        match self.index_of(task_type) {
            Some(i) => Some(&self.entries[i].1),
            None => None,
        }
    }

    /// The system prompt for the kind `task_type`.
    pub fn get_prompt(&self, task_type: &str) -> (r: Option<&str>)
        ensures
            match r {
                Some(p) => self.entry(task_type@) matches Some(e) && e.system_prompt == p@,
                None => self.entry(task_type@) is None,
            },
    {
        match self.get(task_type) {
            Some(e) => Some(e.system_prompt.as_str()),
            None => None,
        }
    }

    /// Whether the memory knows the kind `task_type`.
    pub fn contains(&self, task_type: &str) -> (r: bool)
        ensures
            r == (self.entry(task_type@) is Some),
    {
        self.index_of(task_type).is_some()
    }

    /// The number of kinds that the memory knows.
    pub fn len(&self) -> (r: usize)
        ensures
            r == self.slots().len(),
    {
        self.entries.len()
    }

    /// Whether the memory knows no kind.
    pub fn is_empty(&self) -> (r: bool)
        ensures
            r == (self.slots().len() == 0),
    {
        self.entries.len() == 0
    }

    /// Forgets every kind.
    pub fn clear(&mut self)
        ensures
            final(self).wf(),
            final(self).slots() == Seq::<(Seq<char>, PromptEntryView)>::empty(),
            final(self).format_version() == old(self).format_version(),
    {
        self.entries.clear();
        assert(slots_view(self.entries@) =~= Seq::empty());
    }

    /// The version of the memory's format.
    pub fn version(&self) -> (r: &str)
        ensures
            r@ == self.format_version(),
    {
        self.version.as_str()
    }

    /// The kinds of task and their entries, in the order in which the kinds
    /// were first stored.
    pub fn entries(&self) -> (r: &Vec<(String, PromptEntry)>)
        ensures
            slots_view(r@) == self.slots(),
    {
        &self.entries
    }

    /// The number of corrections that wait for the kind `task_type`.
    pub fn pending_corrections(&self, task_type: &str) -> (r: usize)
        ensures
            r == self.pending(task_type@),
    {
        match self.get(task_type) {
            Some(e) => e.pending_corrections_count(),
            None => 0,
        }
    }

    /// The corrections that wait for the kind `task_type`, as numbered
    /// lines.
    pub fn get_corrections_summary(&self, task_type: &str) -> (r: Option<String>)
        ensures
            match r {
                Some(t) => self.entry(task_type@) matches Some(e) && t@ == numbered_lines(
                    e.corrections,
                ),
                None => self.entry(task_type@) is None,
            },
    {
        match self.get(task_type) {
            Some(e) => Some(e.corrections_summary()),
            None => None,
        }
    }
}

/// The entry of a kind after its prompt was set to `prompt` at the time
/// `stamp`: the old entry with the new prompt, or a new entry.
pub open spec fn prompted(old_entry: Option<PromptEntryView>, prompt: Seq<char>, stamp: Seq<char>)
    -> PromptEntryView {
    match old_entry {
        Some(e) => e.with_prompt(prompt, stamp),
        None => PromptEntryView::fresh(prompt, stamp),
    }
}

/// The entry of a kind after a correction was added at the time `stamp`: a
/// kind that is new starts with an empty prompt.
pub open spec fn amended(
    old_entry: Option<PromptEntryView>,
    correction: CorrectionView,
    stamp: Seq<char>,
) -> PromptEntryView {
    match old_entry {
        Some(e) => e.corrected(correction, stamp),
        None => PromptEntryView::fresh(Seq::empty(), stamp).corrected(correction, stamp),
    }
}

/// The names of the kinds, in order.
pub open spec fn slot_keys(slots: Seq<(Seq<char>, PromptEntryView)>) -> Seq<Seq<char>> {
    slots.map_values(|e: (Seq<char>, PromptEntryView)| e.0)
}

/// `slots` after the entry `entry` of another memory was merged in under
/// `key`: it is stored where the kind is new or the stored entry is older.
pub open spec fn merge_one(
    slots: Seq<(Seq<char>, PromptEntryView)>,
    key: Seq<char>,
    entry: PromptEntryView,
) -> Seq<(Seq<char>, PromptEntryView)> {
    match slot_entry(slots, key) {
        Some(mine) => if lex_less(mine.last_updated, entry.last_updated) {
            put(slots, key, entry)
        } else {
            slots
        },
        None => put(slots, key, entry),
    }
}

/// `slots` after the slots `other` were merged in, one after the other.
pub open spec fn merged(
    slots: Seq<(Seq<char>, PromptEntryView)>,
    other: Seq<(Seq<char>, PromptEntryView)>,
) -> Seq<(Seq<char>, PromptEntryView)>
    decreases other.len(),
{
    if other.len() == 0 {
        slots
    } else {
        merge_one(merged(slots, other.drop_last()), other.last().0, other.last().1)
    }
}

impl PromptMemory {
    /// Sets the prompt of the kind `task_type`, which becomes known where it
    /// was not.
    pub fn update(&mut self, task_type: &str, prompt: &str)
        ensures
            final(self).entry(task_type@) matches Some(e) && e.system_prompt == prompt@
                && final(self).slots() == put(
                old(self).slots(),
                task_type@,
                prompted(old(self).entry(task_type@), prompt@, e.last_updated),
            ),
            final(self).pending(task_type@) == old(self).pending(task_type@),
            final(self).format_version() == old(self).format_version(),
            old(self).wf() ==> final(self).wf(),
    {
        let entry = match self.get(task_type) {
            Some(e) => {
                let mut copy = e.duplicate();
                copy.update(prompt);
                copy
            },
            None => PromptEntry::new(prompt),
        };
        self.insert_entry(task_type, entry);
    }

    /// Counts one more use of the prompt of the kind `task_type`, and its
    /// success. Nothing happens where the kind is not known.
    pub fn record_usage(&mut self, task_type: &str, success: bool)
        ensures
            final(self).slots() == match old(self).entry(task_type@) {
                Some(e) => put(old(self).slots(), task_type@, e.used(success)),
                None => old(self).slots(),
            },
            final(self).format_version() == old(self).format_version(),
            old(self).wf() ==> final(self).wf(),
    {
        let entry = match self.get(task_type) {
            Some(e) => {
                let mut copy = e.duplicate();
                copy.record_usage(success);
                copy
            },
            None => {
                return ;
            },
        };
        self.insert_entry(task_type, entry);
    }

    /// Adds a correction for the kind `task_type`, which becomes known,
    /// with an empty prompt, where it was not.
    pub fn add_correction(&mut self, task_type: &str, content: &str, context: Option<String>)
        ensures
            final(self).entry(task_type@) matches Some(e) && e.corrections.len() > 0
                && e.corrections.last().content == content@ && e.corrections.last().context
                == option_view(context) && final(self).slots() == put(
                old(self).slots(),
                task_type@,
                amended(old(self).entry(task_type@), e.corrections.last(), e.last_updated),
            ),
            final(self).pending(task_type@) == old(self).pending(task_type@) + 1,
            final(self).format_version() == old(self).format_version(),
            old(self).wf() ==> final(self).wf(),
    {
        let mut entry = match self.get(task_type) {
            Some(e) => e.duplicate(),
            None => PromptEntry::new(""),
        };
        proof {
            reveal_strlit("");
            assert(""@ =~= Seq::<char>::empty());
        }
        entry.add_correction(content, context);
        self.insert_entry(task_type, entry);
    }

    /// Forgets the corrections of the kind `task_type`. Nothing happens
    /// where the kind is not known.
    pub fn clear_corrections(&mut self, task_type: &str)
        ensures
            final(self).slots() == match old(self).entry(task_type@) {
                Some(e) => put(old(self).slots(), task_type@, e.cleared()),
                None => old(self).slots(),
            },
            final(self).pending(task_type@) == 0,
            final(self).format_version() == old(self).format_version(),
            old(self).wf() ==> final(self).wf(),
    {
        let entry = match self.get(task_type) {
            Some(e) => {
                let mut copy = e.duplicate();
                copy.clear_corrections();
                copy
            },
            None => {
                return ;
            },
        };
        self.insert_entry(task_type, entry);
    }

    /// The entry for the kind `task_type`, to be changed in place.
    pub fn get_mut(&mut self, task_type: &str) -> (r: Option<&mut PromptEntry>)
        ensures
            final(self).format_version() == old(self).format_version(),
            old(self).wf() ==> final(self).wf(),
            match r {
                Some(e) => old(self).entry(task_type@) == Some(e@) && final(self).slots() == put(
                    old(self).slots(),
                    task_type@,
                    final(e)@,
                ),
                None => old(self).entry(task_type@) is None && final(self).slots() == old(
                    self,
                ).slots(),
            },
    {
        match self.index_of(task_type) {
            Some(i) => {
                let ghost before = self.entries@;
                let slot = &mut self.entries[i];
                let e = &mut slot.1;
                proof {
                    lemma_slot_index(slots_view(before), task_type@);
                    let after = before.update(i as int, (before[i as int].0, *final(e)));
                    assert(slots_view(after) =~= put(
                        slots_view(before),
                        task_type@,
                        final(e)@,
                    ));
                    lemma_put(slots_view(before), task_type@, final(e)@, task_type@);
                }
                Some(e)
            },
            None => None,
        }
    }

    /// The entry for the kind `task_type`, which becomes known, with an
    /// empty prompt, where it was not.
    pub fn ensure_task_type(&mut self, task_type: &str) -> (r: &mut PromptEntry)
        ensures
            final(self).format_version() == old(self).format_version(),
            old(self).wf() ==> final(self).wf(),
            match old(self).entry(task_type@) {
                Some(e) => r@ == e,
                None => r@ == PromptEntryView::fresh(Seq::empty(), r@.last_updated),
            },
            final(self).slots() == put(old(self).slots(), task_type@, final(r)@),
    {
        proof {
            reveal_strlit("");
            assert(""@ =~= Seq::<char>::empty());
        }
        let i = match self.index_of(task_type) {
            Some(i) => i,
            None => {
                let ghost before = slots_view(self.entries@);
                let entry = PromptEntry::new("");
                self.entries.push((String::from_str(task_type), entry));
                proof {
                    assert(slots_view(self.entries@) =~= before.push((task_type@, entry@)));
                    lemma_put(before, task_type@, entry@, task_type@);
                    lemma_put_twice(before, task_type@, entry@, entry@);
                }
                self.entries.len() - 1
            },
        };
        let ghost middle = self.entries@;
        proof {
            lemma_slot_index(old(self).slots(), task_type@);
            lemma_slot_index(slots_view(middle), task_type@);
        }
        let slot = &mut self.entries[i];
        let e = &mut slot.1;
        proof {
            let after = middle.update(i as int, (middle[i as int].0, *final(e)));
            assert(slots_view(after) =~= put(slots_view(middle), task_type@, final(e)@));
            lemma_put(slots_view(middle), task_type@, final(e)@, task_type@);
            lemma_put_twice(old(self).slots(), task_type@, e@, final(e)@);
        }
        e
    }

    /// Takes the kind `task_type` out of the memory.
    pub fn remove(&mut self, task_type: &str) -> (r: Option<PromptEntry>)
        ensures
            final(self).slots() == without(old(self).slots(), task_type@),
            final(self).format_version() == old(self).format_version(),
            old(self).wf() ==> final(self).wf() && final(self).entry(task_type@) is None,
            match r {
                Some(e) => old(self).entry(task_type@) == Some(e@),
                None => old(self).entry(task_type@) is None,
            },
    {
        proof {
            if self.wf() {
                lemma_without(self.slots(), task_type@, task_type@);
            }
        }
        match self.index_of(task_type) {
            Some(i) => {
                let ghost before = slots_view(self.entries@);
                let slot = self.entries.remove(i);
                assert(slots_view(self.entries@) =~= before.remove(i as int));
                Some(slot.1)
            },
            None => None,
        }
    }

    /// The names of the kinds, in order.
    pub fn get_task_types_list(&self) -> (r: Vec<String>)
        ensures
            crate::agent::todo::strings_view(r@) == slot_keys(self.slots()),
    {
        let ghost all = slots_view(self.entries@);
        let mut keys: Vec<String> = Vec::new();
        let mut i: usize = 0;
        while i < self.entries.len()
            invariant
                i <= self.entries.len(),
                all == slots_view(self.entries@),
                crate::agent::todo::strings_view(keys@) == slot_keys(all).take(i as int),
            decreases self.entries.len() - i,
        {
            let ghost before = crate::agent::todo::strings_view(keys@);
            let key = self.entries[i].0.clone();
            keys.push(key);
            assert(crate::agent::todo::strings_view(keys@) =~= before.push(key@));
            assert(slot_keys(all).take(i + 1) =~= slot_keys(all).take(i as int).push(all[i as int].0));
            i += 1;
        }
        assert(slot_keys(all).take(self.entries.len() as int) == slot_keys(all));
        keys
    }

    /// Merges another memory into this one: a kind that is new is taken
    /// over, and so is one whose entry here changed earlier than the
    /// other's.
    pub fn merge(&mut self, other: &PromptMemory)
        ensures
            final(self).slots() == merged(old(self).slots(), other.slots()),
            final(self).format_version() == old(self).format_version(),
            old(self).wf() ==> final(self).wf(),
    {
        let ghost theirs = slots_view(other.entries@);
        let ghost start = self.slots();
        let ghost version = self.format_version();
        let ghost was_wf = self.wf();
        let mut i: usize = 0;
        assert(theirs.take(0) =~= Seq::empty());
        while i < other.entries.len()
            invariant
                i <= other.entries.len(),
                theirs == slots_view(other.entries@),
                self.slots() == merged(start, theirs.take(i as int)),
                self.format_version() == version,
                was_wf ==> self.wf(),
            decreases other.entries.len() - i,
        {
            assert(theirs.take(i + 1).drop_last() == theirs.take(i as int));
            let key = other.entries[i].0.as_str();
            let theirs_entry = &other.entries[i].1;
            let take = match self.get(key) {
                Some(mine) => str_less(mine.last_updated.as_str(), theirs_entry.last_updated.as_str()),
                None => true,
            };
            if take {
                self.insert_entry(key, theirs_entry.duplicate());
            }
            i += 1;
        }
        assert(theirs.take(other.entries.len() as int) == theirs);
    }
}

/// Storing a second entry for a kind makes the first forgotten.
pub proof fn lemma_put_twice(
    slots: Seq<(Seq<char>, PromptEntryView)>,
    key: Seq<char>,
    first: PromptEntryView,
    second: PromptEntryView,
)
    ensures
        put(put(slots, key, first), key, second) == put(slots, key, second),
{
    lemma_put(slots, key, first, key);
    lemma_slot_index(slots, key);
    lemma_slot_index(put(slots, key, first), key);
    let i = slot_index(slots, key);
    let mid = put(slots, key, first);
    if i < 0 {
        assert forall|j: int| 0 <= j < slots.len() implies (#[trigger] mid[j]).0 != key by {
            assert(mid[j] == slots[j]);
        }
        lemma_slot_index_is(mid, key, slots.len() as int);
    } else {
        assert forall|j: int| 0 <= j < i implies (#[trigger] mid[j]).0 != key by {
            assert(mid[j] == slots[j]);
        }
        lemma_slot_index_is(mid, key, i);
    }
    assert(put(mid, key, second) =~= put(slots, key, second));
}

/// The number of corrections that wait for the kind `key`.
pub open spec fn pending_in(slots: Seq<(Seq<char>, PromptEntryView)>, key: Seq<char>) -> nat {
    match slot_entry(slots, key) {
        Some(e) => e.corrections.len(),
        None => 0,
    }
}

/// `slots` after the prompt of the kind `key` was set to `prompt` at the
/// time `stamp`.
pub open spec fn with_prompt_set(
    slots: Seq<(Seq<char>, PromptEntryView)>,
    key: Seq<char>,
    prompt: Seq<char>,
    stamp: Seq<char>,
) -> Seq<(Seq<char>, PromptEntryView)> {
    put(slots, key, prompted(slot_entry(slots, key), prompt, stamp))
}

/// `slots` after a correction for the kind `key` was added at the time
/// `stamp`.
pub open spec fn with_correction(
    slots: Seq<(Seq<char>, PromptEntryView)>,
    key: Seq<char>,
    correction: CorrectionView,
    stamp: Seq<char>,
) -> Seq<(Seq<char>, PromptEntryView)> {
    put(slots, key, amended(slot_entry(slots, key), correction, stamp))
}

/// `slots` after the corrections of the kind `key` were worked into the
/// prompt `prompt` at the time `stamp`: the prompt is replaced and the
/// corrections are forgotten.
pub open spec fn consolidated(
    slots: Seq<(Seq<char>, PromptEntryView)>,
    key: Seq<char>,
    prompt: Seq<char>,
    stamp: Seq<char>,
) -> Seq<(Seq<char>, PromptEntryView)> {
    put(slots, key, prompted(slot_entry(slots, key), prompt, stamp).cleared())
}

impl PromptMemory {
    /// Works the corrections of the kind `task_type` into the prompt
    /// `prompt`: the prompt is replaced and the corrections are forgotten.
    pub fn consolidate(&mut self, task_type: &str, prompt: &str)
        ensures
            final(self).entry(task_type@) matches Some(e) && e.system_prompt == prompt@
                && e.corrections.len() == 0 && final(self).slots() == consolidated(
                old(self).slots(),
                task_type@,
                prompt@,
                e.last_updated,
            ),
            final(self).pending(task_type@) == 0,
            final(self).format_version() == old(self).format_version(),
            old(self).wf() ==> final(self).wf(),
    {
        let ghost start = self.slots();
        self.update(task_type, prompt);
        let ghost middle = self.slots();
        let ghost set = self.entry(task_type@)->0;
        proof {
            lemma_put(
                start,
                task_type@,
                prompted(slot_entry(start, task_type@), prompt@, set.last_updated),
                task_type@,
            );
            assert(set == prompted(slot_entry(start, task_type@), prompt@, set.last_updated));
        }
        self.clear_corrections(task_type);
        proof {
            lemma_put_twice(
                start,
                task_type@,
                prompted(slot_entry(start, task_type@), prompt@, set.last_updated),
                set.cleared(),
            );
            lemma_put(middle, task_type@, set.cleared(), task_type@);
        }
    }
}

/// A prompt that was set is the prompt that is found, letter for letter.
pub proof fn law_prompt_round_trip(
    slots: Seq<(Seq<char>, PromptEntryView)>,
    key: Seq<char>,
    prompt: Seq<char>,
    stamp: Seq<char>,
)
    ensures
        slot_entry(with_prompt_set(slots, key, prompt, stamp), key) matches Some(e)
            && e.system_prompt == prompt,
{
    lemma_put(slots, key, prompted(slot_entry(slots, key), prompt, stamp), key);
}

/// Each correction adds one to the number that wait for its kind, so three
/// corrections for a kind that had none make three; the corrections of
/// other kinds are not touched.
pub proof fn law_corrections_add_up(
    slots: Seq<(Seq<char>, PromptEntryView)>,
    key: Seq<char>,
    first: (CorrectionView, Seq<char>),
    second: (CorrectionView, Seq<char>),
    third: (CorrectionView, Seq<char>),
    other: Seq<char>,
)
    ensures
        pending_in(with_correction(slots, key, first.0, first.1), key) == pending_in(slots, key)
            + 1,
        pending_in(
            with_correction(
                with_correction(
                    with_correction(slots, key, first.0, first.1),
                    key,
                    second.0,
                    second.1,
                ),
                key,
                third.0,
                third.1,
            ),
            key,
        ) == pending_in(slots, key) + 3,
        other != key ==> pending_in(with_correction(slots, key, first.0, first.1), other)
            == pending_in(slots, other),
{
    let one = with_correction(slots, key, first.0, first.1);
    let two = with_correction(one, key, second.0, second.1);
    lemma_put(slots, key, amended(slot_entry(slots, key), first.0, first.1), key);
    lemma_put(slots, key, amended(slot_entry(slots, key), first.0, first.1), other);
    lemma_put(one, key, amended(slot_entry(one, key), second.0, second.1), key);
    lemma_put(two, key, amended(slot_entry(two, key), third.0, third.1), key);
}

/// Consolidation leaves no correction waiting for the kind and stores the
/// new prompt.
pub proof fn law_consolidation(
    slots: Seq<(Seq<char>, PromptEntryView)>,
    key: Seq<char>,
    prompt: Seq<char>,
    stamp: Seq<char>,
)
    ensures
        pending_in(consolidated(slots, key, prompt, stamp), key) == 0,
        slot_entry(consolidated(slots, key, prompt, stamp), key) matches Some(e)
            && e.system_prompt == prompt,
{
    lemma_put(slots, key, prompted(slot_entry(slots, key), prompt, stamp).cleared(), key);
}

/// What is shown of a prompt in the summary: a note where it is empty, its
/// first fifty characters and three dots where it is longer, else the
/// prompt itself.
pub open spec fn prompt_preview(prompt: Seq<char>) -> Seq<char> {
    if prompt.len() == 0 {
        "(无提示词，仅有纠偏记录)"@
    } else if prompt.len() > 50 {
        prompt.take(50) + "..."@
    } else {
        prompt
    }
}

/// `successes` of `uses` in percent, rounded to the nearest whole number
/// and to the even one where two are equally near. `uses` is not zero.
pub open spec fn percent(successes: u32, uses: u32) -> int {
    let q = (100 * successes) / (uses as int);
    let r = (100 * successes) % (uses as int);
    if 2 * r > uses || (2 * r == uses && q % 2 == 1) {
        q + 1
    } else {
        q
    }
}

/// What the summary says of the use of an entry: how often it was used,
/// and with what success where it was used at all.
pub open spec fn usage_text(entry: PromptEntryView) -> Seq<char> {
    "使用"@ + decimal(entry.usage_count as nat) + "次"@ + (match entry.success_rate() {
        Some((s, n)) => ", 成功率"@ + decimal(percent(s, n) as nat) + "%"@,
        None => Seq::empty(),
    })
}

/// The line of the summary on the kind `key`.
pub open spec fn summary_line(key: Seq<char>, entry: PromptEntryView) -> Seq<char> {
    "- **"@ + key + "**: "@ + prompt_preview(entry.system_prompt) + " ["@ + usage_text(entry)
        + "]"@
}

/// The lines of the summary, in the order of the slots.
pub open spec fn summary_lines(slots: Seq<(Seq<char>, PromptEntryView)>) -> Seq<Seq<char>> {
    slots.map_values(|s: (Seq<char>, PromptEntryView)| summary_line(s.0, s.1))
}

/// `lines` joined by line breaks.
pub open spec fn join_lines(lines: Seq<Seq<char>>) -> Seq<char>
    decreases lines.len(),
{
    if lines.len() == 0 {
        Seq::empty()
    } else if lines.len() == 1 {
        lines[0]
    } else {
        join_lines(lines.drop_last()) + "\n"@ + lines.last()
    }
}

/// The summary of the kinds of task that a memory knows: a line on each,
/// the lines in the order of strings; a note where it knows none.
pub open spec fn task_types_summary(slots: Seq<(Seq<char>, PromptEntryView)>) -> Seq<char> {
    if slots.len() == 0 {
        "（暂无已保存的任务类型记忆）"@
    } else {
        join_lines(sort_lines(summary_lines(slots)))
    }
}

/// Appends what is shown of a prompt in the summary.
fn push_preview(dst: &mut Vec<char>, prompt: &str)
    ensures
        final(dst)@ == old(dst)@ + prompt_preview(prompt@),
{
    let chars = to_chars(prompt);
    if chars.len() == 0 {
        push_str(dst, "(无提示词，仅有纠偏记录)");
    } else if chars.len() > 50 {
        let head = crate::text::copy_range(&chars, 0, 50);
        assert(chars@.take(50) == chars@.subrange(0, 50));
        push_chars(dst, &head);
        push_str(dst, "...");
        assert(dst@ =~= old(dst)@ + prompt_preview(prompt@));
    } else {
        push_chars(dst, &chars);
    }
}

/// Appends what the summary says of the use of an entry.
fn push_usage(dst: &mut Vec<char>, entry: &PromptEntry)
    ensures
        final(dst)@ == old(dst)@ + usage_text(entry@),
{
    push_str(dst, "使用");
    push_decimal(dst, entry.usage_count as u128);
    push_str(dst, "次");
    if entry.usage_count > 0 {
        let n = entry.usage_count as u64;
        let total: u64 = 100 * (entry.success_count as u64);
        let q = total / n;
        let r = total % n;
        let rounded = if 2 * r > n || (2 * r == n && q % 2 == 1) {
            q + 1
        } else {
            q
        };
        assert(rounded == percent(entry.success_count, entry.usage_count));
        push_str(dst, ", 成功率");
        push_decimal(dst, rounded as u128);
        push_str(dst, "%");
        assert(dst@ =~= old(dst)@ + usage_text(entry@));
    } else {
        assert(dst@ =~= old(dst)@ + usage_text(entry@));
    }
}

/// Writes the line of the summary on the kind `key`.
fn summary_line_text(key: &str, entry: &PromptEntry) -> (r: Vec<char>)
    ensures
        r@ == summary_line(key@, entry@),
{
    let mut out = to_chars("- **");
    push_str(&mut out, key);
    push_str(&mut out, "**: ");
    push_preview(&mut out, entry.system_prompt.as_str());
    push_str(&mut out, " [");
    push_usage(&mut out, entry);
    push_str(&mut out, "]");
    assert(out@ =~= summary_line(key@, entry@));
    out
}

/// Joins lines by line breaks.
fn join_line_texts(lines: &Vec<Vec<char>>) -> (r: Vec<char>)
    ensures
        r@ == join_lines(lines_view(lines@)),
{
    let ghost all = lines_view(lines@);
    let mut out: Vec<char> = Vec::new();
    let mut i: usize = 0;
    assert(all.take(0) =~= Seq::empty());
    while i < lines.len()
        invariant
            i <= lines.len(),
            all == lines_view(lines@),
            out@ == join_lines(all.take(i as int)),
        decreases lines.len() - i,
    {
        let ghost next = all.take(i + 1);
        assert(next.drop_last() == all.take(i as int));
        assert(next.last() == lines@[i as int]@);
        if i > 0 {
            push_str(&mut out, "\n");
        }
        push_chars(&mut out, &lines[i]);
        assert(out@ =~= join_lines(next)) by {
            if i == 0 {
                assert(next[0] == next.last());
            }
        }
        i += 1;
    }
    assert(all.take(lines.len() as int) == all);
    out
}

impl PromptMemory {
    /// The summary of the kinds of task that the memory knows, for the
    /// planner's model.
    pub fn get_task_types_summary(&self) -> (r: String)
        ensures
            r@ == task_types_summary(self.slots()),
    {
        if self.entries.len() == 0 {
            return String::from_str("（暂无已保存的任务类型记忆）");
        }
        let ghost all = slots_view(self.entries@);
        let mut sorted: Vec<Vec<char>> = Vec::new();
        let mut i: usize = 0;
        assert(summary_lines(all).take(0) =~= Seq::empty());
        assert(lines_view(sorted@) =~= Seq::empty());
        while i < self.entries.len()
            invariant
                i <= self.entries.len(),
                all == slots_view(self.entries@),
                lines_view(sorted@) == sort_lines(summary_lines(all).take(i as int)),
            decreases self.entries.len() - i,
        {
            let ghost next = summary_lines(all).take(i + 1);
            assert(next.drop_last() == summary_lines(all).take(i as int));
            assert(next.last() == summary_line(all[i as int].0, all[i as int].1));
            let line = summary_line_text(self.entries[i].0.as_str(), &self.entries[i].1);
            insert_line(&mut sorted, line);
            i += 1;
        }
        assert(summary_lines(all).take(self.entries.len() as int) == summary_lines(all));
        from_chars(&join_line_texts(&sorted))
    }
}

/// The kinds of task that a new installation knows, each with its prompt.
pub const DEFAULT_TASK_TYPES: [(&'static str, &'static str); 5] = [
    ("微信操作", "你是一个专门处理微信相关任务的手机操作助手。微信的常见操作包括：发送消息、查看朋友圈、添加好友等。请注意微信的界面层级结构。"),
    ("设置调整", "你是一个专门处理系统设置的手机操作助手。请熟悉 Android 设置界面的层级结构，包括：无线网络、显示、声音、应用等设置项。"),
    ("应用安装", "你是一个专门处理应用安装任务的手机操作助手。请熟悉应用商店的操作流程，包括搜索、安装、更新等。"),
    ("文件管理", "你是一个专门处理文件管理任务的手机操作助手。请熟悉文件管理器的操作，包括浏览、复制、移动、删除等。"),
    ("通用任务", "你是一个通用的手机操作助手，可以处理各种手机操作任务。请根据当前界面状态选择合适的操作。"),
];

/// The kinds of task that a new installation knows, each with its prompt.
pub fn default_task_types() -> (r: Vec<(&'static str, &'static str)>)
    ensures
        r@ == DEFAULT_TASK_TYPES@,
{
    let mut list: Vec<(&'static str, &'static str)> = Vec::new();
    let mut i: usize = 0;
    while i < DEFAULT_TASK_TYPES.len()
        invariant
            i <= DEFAULT_TASK_TYPES@.len(),
            list@ == DEFAULT_TASK_TYPES@.take(i as int),
        decreases DEFAULT_TASK_TYPES@.len() - i,
    {
        list.push(DEFAULT_TASK_TYPES[i]);
        assert(DEFAULT_TASK_TYPES@.take(i + 1) =~= DEFAULT_TASK_TYPES@.take(i as int).push(
            DEFAULT_TASK_TYPES@[i as int],
        ));
        i += 1;
    }
    assert(DEFAULT_TASK_TYPES@.take(DEFAULT_TASK_TYPES@.len() as int) == DEFAULT_TASK_TYPES@);
    list
}

/// Whether a row after the `i`-th of the table of defaults has the name of
/// the `i`-th.
pub open spec fn default_named_again(i: int) -> bool {
    exists|j: int|
        i < j < DEFAULT_TASK_TYPES@.len() && (#[trigger] DEFAULT_TASK_TYPES@[j]).0@
            == DEFAULT_TASK_TYPES@[i].0@
}

/// A memory that knows the kinds of task of a new installation: each kind
/// of the table of defaults, with the prompt of its last row, never used
/// and without corrections.
pub fn create_default_prompt_memory() -> (r: PromptMemory)
    ensures
        r.wf(),
        r.slots().len() <= DEFAULT_TASK_TYPES@.len(),
        forall|i: int|
            0 <= i < DEFAULT_TASK_TYPES@.len() ==> (r.entry(
                (#[trigger] DEFAULT_TASK_TYPES@[i]).0@,
            ) matches Some(e) && e.usage_count == 0 && e.corrections.len() == 0 && (e.system_prompt
                == DEFAULT_TASK_TYPES@[i].1@ || default_named_again(i))),
{
    let mut memory = PromptMemory::new();
    let mut i: usize = 0;
    while i < DEFAULT_TASK_TYPES.len()
        invariant
            i <= DEFAULT_TASK_TYPES@.len(),
            memory.wf(),
            memory.slots().len() <= i,
            forall|k: int|
                0 <= k < memory.slots().len() ==> (#[trigger] memory.slots()[k]).1.usage_count == 0
                    && memory.slots()[k].1.corrections.len() == 0,
            forall|j: int|
                0 <= j < i ==> (memory.entry((#[trigger] DEFAULT_TASK_TYPES@[j]).0@) matches Some(
                    e,
                ) && (e.system_prompt == DEFAULT_TASK_TYPES@[j].1@ || exists|k: int|
                    j < k < i && (#[trigger] DEFAULT_TASK_TYPES@[k]).0@
                        == DEFAULT_TASK_TYPES@[j].0@)),
        decreases DEFAULT_TASK_TYPES@.len() - i,
    {
        let (task_type, prompt) = DEFAULT_TASK_TYPES[i];
        let ghost before = memory.slots();
        memory.update(task_type, prompt);
        proof {
            let stored = memory.entry(task_type@)->0;
            let entry = prompted(slot_entry(before, task_type@), prompt@, stored.last_updated);
            lemma_slot_index(before, task_type@);
            assert forall|k: int| 0 <= k < memory.slots().len() implies (
            #[trigger] memory.slots()[k]).1.usage_count == 0
                && memory.slots()[k].1.corrections.len() == 0 by {
                let at = slot_index(before, task_type@);
                if at >= 0 && k != at {
                    assert(memory.slots()[k] == before[k]);
                } else if at < 0 && k < before.len() {
                    assert(memory.slots()[k] == before[k]);
                }
            }
            assert forall|j: int| 0 <= j < i + 1 implies (memory.entry(
                (#[trigger] DEFAULT_TASK_TYPES@[j]).0@,
            ) matches Some(e) && (e.system_prompt == DEFAULT_TASK_TYPES@[j].1@ || exists|k: int|
                j < k < i + 1 && (#[trigger] DEFAULT_TASK_TYPES@[k]).0@
                    == DEFAULT_TASK_TYPES@[j].0@)) by {
                lemma_put(before, task_type@, entry, DEFAULT_TASK_TYPES@[j].0@);
                if j < i {
                    if DEFAULT_TASK_TYPES@[j].0@ == task_type@ {
                        assert(DEFAULT_TASK_TYPES@[i as int].0@ == DEFAULT_TASK_TYPES@[j].0@);
                    } else {
                        let old_entry = slot_entry(before, DEFAULT_TASK_TYPES@[j].0@)->0;
                        if old_entry.system_prompt != DEFAULT_TASK_TYPES@[j].1@ {
                            let k = choose|k: int|
                                j < k < i && (#[trigger] DEFAULT_TASK_TYPES@[k]).0@
                                    == DEFAULT_TASK_TYPES@[j].0@;
                            assert(j < k < i + 1);
                        }
                    }
                }
            }
        }
        i += 1;
    }
    proof {
        assert forall|i: int| 0 <= i < DEFAULT_TASK_TYPES@.len() implies (memory.entry(
            (#[trigger] DEFAULT_TASK_TYPES@[i]).0@,
        ) matches Some(e) && e.usage_count == 0 && e.corrections.len() == 0 && (e.system_prompt
            == DEFAULT_TASK_TYPES@[i].1@ || default_named_again(i))) by {
            let key = DEFAULT_TASK_TYPES@[i].0@;
            lemma_slot_index(memory.slots(), key);
            let e = memory.entry(key)->0;
            if e.system_prompt != DEFAULT_TASK_TYPES@[i].1@ {
                let k = choose|k: int|
                    i < k < DEFAULT_TASK_TYPES@.len() && (#[trigger] DEFAULT_TASK_TYPES@[k]).0@
                        == DEFAULT_TASK_TYPES@[i].0@;
                assert(default_named_again(i));
            }
        }
    }
    memory
}

/// Why the memory could not be read or written.
#[derive(Debug, Clone, PartialEq, Eq)]
pub enum PromptMemoryError {
    IoError(String),
    ParseError(String),
    SerializeError(String),
}

/// The text of an error, as it is shown to a reader.
pub open spec fn memory_error_text(e: PromptMemoryError) -> Seq<char> {
    match e {
        PromptMemoryError::IoError(t) => "IO error: "@ + t@,
        PromptMemoryError::ParseError(t) => "Parse error: "@ + t@,
        PromptMemoryError::SerializeError(t) => "Serialize error: "@ + t@,
    }
}

impl PromptMemoryError {
    /// The text of the error, as it is shown to a reader.
    pub fn message(&self) -> (r: String)
        ensures
            r@ == memory_error_text(*self),
    {
        let (head, tail) = match self {
            PromptMemoryError::IoError(t) => ("IO error: ", t),
            PromptMemoryError::ParseError(t) => ("Parse error: ", t),
            PromptMemoryError::SerializeError(t) => ("Serialize error: ", t),
        };
        let mut out = to_chars(head);
        push_str(&mut out, tail.as_str());
        from_chars(&out)
    }
}

/// The words of `s`: its longest runs of letters and digits, and an empty
/// word wherever two other characters meet or one stands at an end.
pub open spec fn words(s: Seq<char>) -> Seq<Seq<char>>
    decreases s.len(),
{
    if s.len() == 0 {
        seq![Seq::<char>::empty()]
    } else {
        let before = words(s.drop_last());
        if crate::text::alphanumeric(s.last()) {
            before.update(before.len() - 1, before.last().push(s.last()))
        } else {
            before.push(Seq::<char>::empty())
        }
    }
}

/// Whether one of `list` is longer than two bytes and stands in `wanted`.
pub open spec fn some_word_in(list: Seq<Seq<char>>, wanted: Seq<char>) -> bool {
    exists|i: int|
        0 <= i < list.len() && crate::text::utf8_length(#[trigger] list[i]) > 2
            && crate::text::contains(wanted, list[i])
}

/// Whether a kind of task, in lower case, fits a description, in lower
/// case: one stands in the other, or a word of the kind that is longer than
/// two bytes stands in the description.
pub open spec fn kind_fits(kind: Seq<char>, wanted: Seq<char>) -> bool {
    crate::text::contains(wanted, kind) || crate::text::contains(kind, wanted) || some_word_in(
        words(kind),
        wanted,
    )
}

/// The index of the first slot at or after `from` whose kind fits the
/// description `wanted`, given in lower case; -1 where none does.
pub open spec fn fitting_slot(
    slots: Seq<(Seq<char>, PromptEntryView)>,
    wanted: Seq<char>,
    from: int,
) -> int
    decreases slots.len() - from,
{
    if from < 0 || from >= slots.len() {
        -1
    } else if kind_fits(crate::text::lowercase(slots[from].0), wanted) {
        from
    } else {
        fitting_slot(slots, wanted, from + 1)
    }
}

/// The number of bytes that `v[from..to]` takes in UTF-8, as far as that
/// matters: counted up to three.
fn capped_width(v: &Vec<char>, from: usize, to: usize) -> (r: usize)
    requires
        from <= to <= v.len(),
    ensures
        r <= 3,
        r == 3 <==> crate::text::utf8_length(v@.subrange(from as int, to as int)) > 2,
{
    let ghost s = v@.subrange(from as int, to as int);
    let mut total: usize = 0;
    let mut i: usize = from;
    assert(s.take(0) =~= Seq::<char>::empty());
    while i < to && total < 3
        invariant
            from <= i <= to <= v.len(),
            s == v@.subrange(from as int, to as int),
            total <= 6,
            total == crate::text::utf8_length(s.take(i - from)),
        decreases to - i,
    {
        assert(s.take(i - from + 1).drop_last() == s.take(i - from));
        assert(s.take(i - from + 1).last() == v@[i as int]);
        let n: u32 = v[i] as u32;
        let width: usize = if n < 0x80 {
            1
        } else if n < 0x800 {
            2
        } else if n < 0x10000 {
            3
        } else {
            4
        };
        total = total + width;
        i += 1;
    }
    proof {
        lemma_utf8_length_grows(s, i - from);
        if i == to {
            assert(s.take(to - from) == s);
        }
    }
    if total >= 3 {
        3
    } else {
        total
    }
}

/// A longer text takes at least as many bytes.
pub proof fn lemma_utf8_length_grows(s: Seq<char>, k: int)
    requires
        0 <= k <= s.len(),
    ensures
        crate::text::utf8_length(s.take(k)) <= crate::text::utf8_length(s),
    decreases s.len(),
{
    if k < s.len() {
        assert(s.drop_last().take(k) == s.take(k));
        lemma_utf8_length_grows(s.drop_last(), k);
    } else {
        assert(s.take(k) == s);
    }
}

/// Whether a word of `kind` that is longer than two bytes stands in
/// `wanted`.
fn has_word_in(kind: &Vec<char>, wanted: &Vec<char>) -> (r: bool)
    ensures
        r == some_word_in(words(kind@), wanted@),
{
    let ghost all = kind@;
    let mut start: usize = 0;
    let mut i: usize = 0;
    assert(all.take(0) =~= Seq::<char>::empty());
    while i < kind.len()
        invariant
            start <= i <= kind.len(),
            all == kind@,
            words(all.take(i as int)).len() >= 1,
            words(all.take(i as int)).last() == all.subrange(start as int, i as int),
            !some_word_in(words(all.take(i as int)).drop_last(), wanted@),
        decreases kind.len() - i,
    {
        let ghost before = words(all.take(i as int));
        let ghost next = all.take(i + 1);
        assert(next.drop_last() == all.take(i as int));
        assert(next.last() == kind@[i as int]);
        if crate::text::is_alphanumeric(kind[i]) {
            assert(words(next).drop_last() =~= before.drop_last());
            assert(all.subrange(start as int, i + 1) == all.subrange(start as int, i as int).push(
                kind@[i as int],
            ));
        } else {
            let word = crate::text::copy_range(kind, start, i);
            if capped_width(kind, start, i) == 3 && crate::text::find(wanted, &word).is_some() {
                proof {
                    let list = words(kind@);
                    lemma_words_prefix(kind@, i as int);
                    let k = before.len() - 1;
                    assert(list[k] == before.last());
                    assert(crate::text::utf8_length(list[k]) > 2 && crate::text::contains(
                        wanted@,
                        list[k],
                    ));
                }
                return true;
            }
            assert(words(next).drop_last() =~= before);
            assert(!some_word_in(before, wanted@)) by {
                if some_word_in(before, wanted@) {
                    let j = choose|j: int|
                        0 <= j < before.len() && crate::text::utf8_length(#[trigger] before[j]) > 2
                            && crate::text::contains(wanted@, before[j]);
                    if j < before.len() - 1 {
                        assert(before.drop_last()[j] == before[j]);
                    }
                }
            }
            start = i + 1;
            assert(all.subrange(start as int, start as int) =~= Seq::<char>::empty());
        }
        i += 1;
    }
    assert(all.take(kind.len() as int) == all);
    let ghost list = words(all);
    let word = crate::text::copy_range(kind, start, kind.len());
    let found = capped_width(kind, start, kind.len()) == 3 && crate::text::find(wanted, &word).is_some();
    proof {
        if found {
            let k = list.len() - 1;
            assert(crate::text::utf8_length(list[k]) > 2 && crate::text::contains(wanted@, list[k]));
        } else {
            if some_word_in(list, wanted@) {
                let j = choose|j: int|
                    0 <= j < list.len() && crate::text::utf8_length(#[trigger] list[j]) > 2
                        && crate::text::contains(wanted@, list[j]);
                if j < list.len() - 1 {
                    assert(list.drop_last()[j] == list[j]);
                }
            }
        }
    }
    found
}

/// The words of a text that is cut before a character that is no letter
/// or digit are words of the whole text, the last of them too.
pub proof fn lemma_words_prefix(s: Seq<char>, k: int)
    requires
        0 <= k < s.len(),
        !crate::text::alphanumeric(s[k]),
    ensures
        words(s.take(k)).len() <= words(s).len(),
        forall|j: int| 0 <= j < words(s.take(k)).len() ==> words(s)[j] == words(s.take(k))[j],
    decreases s.len(),
{
    if k == s.len() - 1 {
        assert(s.take(k) == s.drop_last());
    } else {
        let shorter = s.drop_last();
        assert(shorter.take(k) == s.take(k));
        lemma_words_prefix(shorter, k);
        // one more word is complete in `shorter` than in the text cut at `k`
        lemma_words_grow(shorter, k + 1);
        assert(shorter.take(k + 1).drop_last() == s.take(k));
    }
}

/// Cutting a text later gives no fewer words.
pub proof fn lemma_words_grow(s: Seq<char>, k: int)
    requires
        0 <= k <= s.len(),
    ensures
        words(s.take(k)).len() <= words(s).len(),
        words(s).len() >= 1,
    decreases s.len(),
{
    if s.len() > 0 {
        if k < s.len() {
            assert(s.drop_last().take(k) == s.take(k));
            lemma_words_grow(s.drop_last(), k);
        } else {
            assert(s.take(k) == s);
            lemma_words_grow(s.drop_last(), 0);
        }
    } else {
        assert(s.take(k) == s);
    }
}

impl PromptMemory {
    /// The kind of task that fits the description best, by key words: the
    /// first kind, in the order of the memory, of which the name or a word
    /// of the name stands in the description, or in which the description
    /// stands, all in lower case. None where no kind fits.
    pub fn find_matching_task_type(&self, description: &str) -> (r: Option<String>)
        ensures
            match r {
                Some(kind) => {
                    let i = fitting_slot(self.slots(), crate::text::lowercase(description@), 0);
                    i >= 0 && kind@ == self.slots()[i].0
                },
                None => fitting_slot(self.slots(), crate::text::lowercase(description@), 0) == -1,
            },
    {
        let wanted = to_chars(crate::text::to_lowercase(description).as_str());
        let ghost all = slots_view(self.entries@);
        let mut i: usize = 0;
        while i < self.entries.len()
            invariant
                i <= self.entries.len(),
                all == slots_view(self.entries@),
                wanted@ == crate::text::lowercase(description@),
                fitting_slot(all, wanted@, 0) == fitting_slot(all, wanted@, i as int),
            decreases self.entries.len() - i,
        {
            let kind = to_chars(crate::text::to_lowercase(self.entries[i].0.as_str()).as_str());
            if crate::text::find(&wanted, &kind).is_some() || crate::text::find(
                &kind,
                &wanted,
            ).is_some() || has_word_in(&kind, &wanted) {
                return Some(self.entries[i].0.clone());
            }
            i += 1;
        }
        None
    }

    /// The names of the kinds, in order.
    pub fn task_types(&self) -> (r: Vec<&str>)
        ensures
            r@.len() == self.slots().len(),
            forall|i: int| 0 <= i < r@.len() ==> (#[trigger] r@[i])@ == self.slots()[i].0,
    {
        let mut keys: Vec<&str> = Vec::new();
        let mut i: usize = 0;
        while i < self.entries.len()
            invariant
                i <= self.entries.len(),
                keys@.len() == i,
                forall|j: int|
                    0 <= j < i ==> (#[trigger] keys@[j])@ == slots_view(self.entries@)[j].0,
            decreases self.entries.len() - i,
        {
            keys.push(self.entries[i].0.as_str());
            i += 1;
        }
        keys
    }

    /// The names of the kinds for which corrections wait, in order.
    pub fn task_types_with_corrections(&self) -> (r: Vec<&str>)
        ensures
            r@.len() == corrected_kinds(self.slots()).len(),
            forall|i: int|
                0 <= i < r@.len() ==> (#[trigger] r@[i])@ == corrected_kinds(self.slots())[i],
    {
        let ghost all = slots_view(self.entries@);
        let mut keys: Vec<&str> = Vec::new();
        let mut i: usize = 0;
        assert(all.take(0) =~= Seq::empty());
        while i < self.entries.len()
            invariant
                i <= self.entries.len(),
                all == slots_view(self.entries@),
                keys@.len() == corrected_kinds(all.take(i as int)).len(),
                forall|k: int|
                    0 <= k < keys@.len() ==> (#[trigger] keys@[k])@ == corrected_kinds(
                        all.take(i as int),
                    )[k],
            decreases self.entries.len() - i,
        {
            assert(all.take(i + 1).drop_last() == all.take(i as int));
            assert(all.take(i + 1).last() == all[i as int]);
            if self.entries[i].1.pending_corrections_count() > 0 {
                keys.push(self.entries[i].0.as_str());
            }
            i += 1;
        }
        assert(all.take(self.entries.len() as int) == all);
        keys
    }

    /// The kinds whose share of successful uses is at least `min_percent`
    /// in a hundred, with their entries, in order. A kind that was never
    /// used has no such share.
    pub fn get_successful_prompts(&self, min_percent: u32) -> (r: Vec<(&str, &PromptEntry)>)
        ensures
            r@.len() == successful_slots(self.slots(), min_percent).len(),
            forall|i: int|
                0 <= i < r@.len() ==> ((#[trigger] r@[i]).0@, r@[i].1@) == successful_slots(
                    self.slots(),
                    min_percent,
                )[i],
    {
        let ghost all = slots_view(self.entries@);
        let mut found: Vec<(&str, &PromptEntry)> = Vec::new();
        let mut i: usize = 0;
        assert(all.take(0) =~= Seq::empty());
        while i < self.entries.len()
            invariant
                i <= self.entries.len(),
                all == slots_view(self.entries@),
                found@.len() == successful_slots(all.take(i as int), min_percent).len(),
                forall|k: int|
                    0 <= k < found@.len() ==> ((#[trigger] found@[k]).0@, found@[k].1@)
                        == successful_slots(all.take(i as int), min_percent)[k],
            decreases self.entries.len() - i,
        {
            assert(all.take(i + 1).drop_last() == all.take(i as int));
            assert(all.take(i + 1).last() == all[i as int]);
            let entry = &self.entries[i].1;
            assert(min_percent * entry.usage_count <= 0xffff_ffff * 0xffff_ffff)
                by (nonlinear_arith)
                requires
                    0 <= min_percent <= 0xffff_ffff,
                    0 <= entry.usage_count <= 0xffff_ffff,
            ;
            let wanted: u64 = (min_percent as u64) * (entry.usage_count as u64);
            let enough = entry.usage_count > 0 && (entry.success_count as u64) * 100 >= wanted;
            if enough {
                found.push((self.entries[i].0.as_str(), entry));
            }
            i += 1;
        }
        assert(all.take(self.entries.len() as int) == all);
        found
    }
}

/// The names of the kinds for which corrections wait, in order.
pub open spec fn corrected_kinds(slots: Seq<(Seq<char>, PromptEntryView)>) -> Seq<Seq<char>>
    decreases slots.len(),
{
    if slots.len() == 0 {
        Seq::empty()
    } else if slots.last().1.corrections.len() > 0 {
        corrected_kinds(slots.drop_last()).push(slots.last().0)
    } else {
        corrected_kinds(slots.drop_last())
    }
}

/// Whether an entry was used and succeeded in at least `min_percent` of a
/// hundred uses.
pub open spec fn succeeds_often(entry: PromptEntryView, min_percent: u32) -> bool {
    entry.usage_count > 0 && entry.success_count * 100 >= min_percent * entry.usage_count
}

/// The slots whose entries succeed in at least `min_percent` of a hundred
/// uses, in order.
pub open spec fn successful_slots(slots: Seq<(Seq<char>, PromptEntryView)>, min_percent: u32)
    -> Seq<(Seq<char>, PromptEntryView)>
    decreases slots.len(),
{
    if slots.len() == 0 {
        Seq::empty()
    } else if succeeds_often(slots.last().1, min_percent) {
        successful_slots(slots.drop_last(), min_percent).push(slots.last())
    } else {
        successful_slots(slots.drop_last(), min_percent)
    }
}

} // verus!

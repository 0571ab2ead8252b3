use vstd::prelude::*;

use crate::model::{Action, ClickPosition, Hotkey};
use crate::text::push_char;

verus! {

/// A named set of settings: the action (with the label the window showed for it), the
/// interval, the limits, the fixed position and the global hotkey.
#[derive(Clone, Debug, PartialEq)]
pub struct Preset {
    pub name: String,
    pub action: Action,
    pub action_label: String,
    pub interval_ms: u64,
    pub duration_ms: u64,
    pub max_actions: u64,
    pub position: Option<ClickPosition>,
    pub hotkey: Hotkey,
}

/// A preset as contracts speak of it.
pub struct PresetView {
    pub name: Seq<char>,
    pub action: Action,
    pub action_label: Seq<char>,
    pub interval_ms: u64,
    pub duration_ms: u64,
    pub max_actions: u64,
    pub position: Option<ClickPosition>,
    pub hotkey: Hotkey,
}

impl View for Preset {
    type V = PresetView;

    open spec fn view(&self) -> PresetView {
        PresetView {
            name: self.name@,
            action: self.action,
            action_label: self.action_label@,
            interval_ms: self.interval_ms,
            duration_ms: self.duration_ms,
            max_actions: self.max_actions,
            position: self.position,
            hotkey: self.hotkey,
        }
    }
}

/// The views of a list of presets.
pub open spec fn preset_views(presets: Seq<Preset>) -> Seq<PresetView> {
    presets.map_values(|p: Preset| p@)
}

/// The lower-case form of a text, as std's `str::to_lowercase` computes it.
pub uninterp spec fn lowercase(text: Seq<char>) -> Seq<char>;

/// std's `str::to_lowercase`: the text with each character replaced by its Unicode
/// lower-case mapping. The contract names the result and claims no more of it.
#[verifier::external_body]
fn to_lowercase(text: &str) -> (r: String)
    ensures
        r@ == lowercase(text@),
{
    text.to_lowercase()
}

/// The lower-case form of a name, the key by which it is listed.
fn lower_key_of(text: &str) -> (r: String)
    ensures
        r@ == lower_key(text@),
{
    let n = text.unicode_len();
    let mut i: usize = 0;
    while i < n
        invariant
            n == text@.len(),
            i <= n,
            forall|j: int| 0 <= j < i ==> (#[trigger] text@[j] as u32) < 128,
        decreases n - i,
    {
        let c = text.get_char(i);
        if (c as u32) >= 128 {
            return to_lowercase(text);
        }
        i = i + 1;
    }
    let mut out = String::new();
    let mut k: usize = 0;
    proof {
        assert(out@ =~= text@.take(0).map_values(|c: char| ascii_lower_char(c)));
    }
    while k < n
        invariant
            n == text@.len(),
            k <= n,
            is_ascii_text(text@),
            out@ == text@.take(k as int).map_values(|c: char| ascii_lower_char(c)),
        decreases n - k,
    {
        let c = text.get_char(k);
        assert((c as u32) < 128);
        let b = c as u8;
        assert(b as u32 == c as u32);
        let lowered = if 65 <= b && b <= 90 {
            (b + 32) as char
        } else {
            c
        };
        assert(lowered == ascii_lower_char(c));
        push_char(&mut out, lowered);
        proof {
            assert(out@ =~= text@.take(k + 1).map_values(|c: char| ascii_lower_char(c)));
        }
        k = k + 1;
    }
    proof {
        assert(text@.take(n as int) =~= text@);
    }
    out
}

/// Rust's order on strings: character by character by code point, a proper prefix first.
pub open spec fn lex_lt(a: Seq<char>, b: Seq<char>) -> bool
    decreases a.len(),
{
    if a.len() == 0 {
        b.len() > 0
    } else if b.len() == 0 {
        false
    } else if a[0] != b[0] {
        (a[0] as int) < (b[0] as int)
    } else {
        lex_lt(a.drop_first(), b.drop_first())
    }
}

/// Whether every character of a text is ASCII.
pub open spec fn is_ascii_text(t: Seq<char>) -> bool {
    forall|i: int| 0 <= i < t.len() ==> (#[trigger] t[i] as u32) < 128
}

/// A character with an ASCII capital made small.
pub open spec fn ascii_lower_char(c: char) -> char {
    if 65 <= (c as u32) <= 90 {
        ((c as u32) + 32) as char
    } else {
        c
    }
}

/// The lower-case form of a text: for an ASCII text, each capital made small, which is
/// what std's `str::to_lowercase` gives there; otherwise std's answer.
pub open spec fn lower_key(t: Seq<char>) -> Seq<char> {
    if is_ascii_text(t) {
        t.map_values(|c: char| ascii_lower_char(c))
    } else {
        lowercase(t)
    }
}

/// The key by which presets are listed: the lower-case name.
pub open spec fn name_key(p: PresetView) -> Seq<char> {
    lower_key(p.name)
}

/// `a` may stand before `b` in the list.
pub open spec fn key_le(a: PresetView, b: PresetView) -> bool {
    !lex_lt(name_key(b), name_key(a))
}

/// The presets are listed by lower-case name.
pub open spec fn sorted_by_name(s: Seq<PresetView>) -> bool {
    forall|i: int, j: int| 0 <= i < j < s.len() ==> key_le(#[trigger] s[i], #[trigger] s[j])
}

/// The first position from `j` on whose preset comes strictly after `p`, else the end.
pub open spec fn first_after(s: Seq<PresetView>, p: PresetView, j: int) -> int
    decreases s.len() - j,
{
    if j >= s.len() || j < 0 {
        s.len() as int
    } else if lex_lt(name_key(p), name_key(s[j])) {
        j
    } else {
        first_after(s, p, j + 1)
    }
}

/// `p` placed after every preset that does not come strictly after it.
pub open spec fn insert_by_name(s: Seq<PresetView>, p: PresetView) -> Seq<PresetView> {
    s.insert(first_after(s, p, 0), p)
}

/// The presets in lower-case name order, presets with equal keys in their former order
/// (the stable sort that std's `sort_by_key` performs).
pub open spec fn sort_by_name(s: Seq<PresetView>) -> Seq<PresetView>
    decreases s.len(),
{
    if s.len() == 0 {
        s
    } else {
        insert_by_name(sort_by_name(s.drop_last()), s.last())
    }
}

/// The first position of a preset named `name`.
pub open spec fn find_name(s: Seq<PresetView>, name: Seq<char>, j: int) -> Option<int>
    decreases s.len() - j,
{
    if j >= s.len() || j < 0 {
        None
    } else if s[j].name == name {
        Some(j)
    } else {
        find_name(s, name, j + 1)
    }
}

/// The list after saving `p`: it replaces the first preset of the same name; a new name
/// is added and the list sorted by lower-case name.
pub open spec fn spec_saved(s: Seq<PresetView>, p: PresetView) -> Seq<PresetView> {
    match find_name(s, p.name, 0) {
        Some(i) => s.update(i, p),
        None => sort_by_name(s.push(p)),
    }
}

/// `write`, handed a store whose presets are `contents`, may answer `answer`: success,
/// or failure with that very message. The store writes itself through such a function
/// after each change.
pub open spec fn writes_answer<F: FnOnce(&PresetStore) -> Result<(), String>>(
    write: F,
    contents: Seq<PresetView>,
    answer: Result<(), String>,
) -> bool {
    exists|store: PresetStore, given: Result<(), String>|
        {
            &&& store@ == contents
            &&& #[trigger] write.ensures((&store,), given)
            &&& match given {
                Ok(_) => answer is Ok,
                Err(message) => answer == Err::<(), String>(message),
            }
        }
}

/// `write` may be handed any store.
pub open spec fn accepts_any_store<F: FnOnce(&PresetStore) -> Result<(), String>>(
    write: F,
) -> bool {
    forall|store: &PresetStore| #[trigger] write.requires((store,))
}

/// The saved presets, kept in the order in which they are listed.
pub struct PresetStore {
    presets: Vec<Preset>,
}

impl View for PresetStore {
    type V = Seq<PresetView>;

    closed spec fn view(&self) -> Seq<PresetView> {
        preset_views(self.presets@)
    }
}

impl Default for PresetStore {
    fn default() -> (r: PresetStore)
        ensures
            r@ == Seq::<PresetView>::empty(),
    {
        let r = PresetStore { presets: Vec::new() };
        proof {
            assert(r@ =~= Seq::<PresetView>::empty());
        }
        r
    }
}

/// A copy of a preset.
fn duplicate(p: &Preset) -> (r: Preset)
    ensures
        r@ == p@,
{
    Preset {
        name: p.name.clone(),
        action: p.action,
        action_label: p.action_label.clone(),
        interval_ms: p.interval_ms,
        duration_ms: p.duration_ms,
        max_actions: p.max_actions,
        position: p.position,
        hotkey: p.hotkey,
    }
}

/// Copies of the presets, in order.
fn duplicate_all(presets: &Vec<Preset>) -> (r: Vec<Preset>)
    ensures
        r@.len() == presets@.len(),
        preset_views(r@) == preset_views(presets@),
{
    let mut copies: Vec<Preset> = Vec::new();
    let mut i: usize = 0;
    while i < presets.len()
        invariant
            i <= presets@.len(),
            copies@.len() == i,
            forall|m: int| 0 <= m < i ==> #[trigger] copies@[m]@ == presets@[m]@,
        decreases presets@.len() - i,
    {
        copies.push(duplicate(&presets[i]));
        i = i + 1;
    }
    assert(preset_views(copies@) =~= preset_views(presets@));
    copies
}

/// Whether `a` comes strictly before `b` in Rust's order on strings.
fn lex_less(a: &str, b: &str) -> (r: bool)
    ensures
        r == lex_lt(a@, b@),
{
    let a_len = a.unicode_len();
    let b_len = b.unicode_len();
    let mut i: usize = 0;
    assert(a@.skip(0) =~= a@);
    assert(b@.skip(0) =~= b@);
    while i < a_len && i < b_len
        invariant
            a_len == a@.len(),
            b_len == b@.len(),
            i <= a_len,
            i <= b_len,
            lex_lt(a@, b@) == lex_lt(a@.skip(i as int), b@.skip(i as int)),
        decreases a_len - i,
    {
        let ca = a.get_char(i);
        let cb = b.get_char(i);
        assert(a@.skip(i as int)[0] == ca);
        assert(b@.skip(i as int)[0] == cb);
        if ca != cb {
            return (ca as u32) < (cb as u32);
        }
        assert(a@.skip(i as int).drop_first() =~= a@.skip(i + 1));
        assert(b@.skip(i as int).drop_first() =~= b@.skip(i + 1));
        i = i + 1;
    }
    i < b_len
}

/// The first position of a preset named `name`.
fn find_name_index(presets: &Vec<Preset>, name: &String) -> (r: Option<usize>)
    ensures
        match r {
            Some(i) => find_name(preset_views(presets@), name@, 0) == Some(i as int),
            None => find_name(preset_views(presets@), name@, 0) is None,
        },
        r matches Some(i) ==> i < presets@.len(),
{
    let ghost s = preset_views(presets@);
    let mut i: usize = 0;
    while i < presets.len()
        invariant
            s == preset_views(presets@),
            i <= presets@.len(),
            find_name(s, name@, 0) == find_name(s, name@, i as int),
        decreases presets@.len() - i,
    {
        if presets[i].name == *name {
            return Some(i);
        }
        i = i + 1;
    }
    None
}

/// The presets in lower-case name order, equal keys in their former order.
fn sorted_presets(presets: &Vec<Preset>) -> (r: Vec<Preset>)
    ensures
        preset_views(r@) == sort_by_name(preset_views(presets@)),
{
    let ghost input = preset_views(presets@);
    let mut result: Vec<Preset> = Vec::new();
    let mut keys: Vec<String> = Vec::new();
    let mut i: usize = 0;
    proof {
        assert(input.take(0) =~= Seq::<PresetView>::empty());
        assert(preset_views(result@) =~= Seq::<PresetView>::empty());
    }
    while i < presets.len()
        invariant
            input == preset_views(presets@),
            i <= presets@.len(),
            preset_views(result@) == sort_by_name(input.take(i as int)),
            keys@.len() == result@.len(),
            forall|m: int| 0 <= m < keys@.len() ==> #[trigger] keys@[m]@ == name_key(result@[m]@),
        decreases presets@.len() - i,
    {
        let p = duplicate(&presets[i]);
        let key = lower_key_of(p.name.as_str());
        let ghost sorted = preset_views(result@);
        let mut pos: usize = 0;
        while pos < keys.len() && !lex_less(key.as_str(), keys[pos].as_str())
            invariant
                sorted == preset_views(result@),
                keys@.len() == result@.len(),
                pos <= keys@.len(),
                key@ == name_key(p@),
                forall|m: int| 0 <= m < keys@.len() ==> #[trigger] keys@[m]@ == name_key(result@[m]@),
                first_after(sorted, p@, 0) == first_after(sorted, p@, pos as int),
            decreases keys@.len() - pos,
        {
            pos = pos + 1;
        }
        proof {
            assert(first_after(sorted, p@, 0) == pos as int);
            assert(input.take(i + 1).drop_last() =~= input.take(i as int));
            assert(input.take(i + 1).last() == p@);
        }
        let ghost before = result@;
        let ghost keys_before = keys@;
        result.insert(pos, p);
        keys.insert(pos, key);
        proof {
            assert(preset_views(result@) =~= sorted.insert(pos as int, p@));
            assert forall|m: int| 0 <= m < keys@.len() implies #[trigger] keys@[m]@ == name_key(
                result@[m]@,
            ) by {
                if m < pos {
                    assert(keys@[m] == keys_before[m]);
                } else if m > pos {
                    assert(keys@[m] == keys_before[m - 1]);
                    assert(result@[m] == before[m - 1]);
                }
            }
        }
        i = i + 1;
    }
    proof {
        assert(input.take(i as int) =~= input);
    }
    result
}

impl PresetStore {
    /// A store holding the given presets, in the given order.
    pub fn from_presets(presets: Vec<Preset>) -> (r: PresetStore)
        ensures
            r@ == preset_views(presets@),
    {
        PresetStore { presets }
    }

    /// The presets, in list order.
    pub fn presets(&self) -> (r: &Vec<Preset>)
        ensures
            preset_views(r@) == self@,
    {
        &self.presets
    }

    /// The names of the presets, in list order.
    pub fn names(&self) -> (r: Vec<&str>)
        ensures
            r@.len() == self@.len(),
            forall|i: int| 0 <= i < r@.len() ==> #[trigger] r@[i]@ == self@[i].name,
    {
        let mut names: Vec<&str> = Vec::new();
        let mut i: usize = 0;
        while i < self.presets.len()
            invariant
                i <= self.presets@.len(),
                names@.len() == i,
                forall|m: int| 0 <= m < i ==> #[trigger] names@[m]@ == self@[m].name,
            decreases self.presets@.len() - i,
        {
            names.push(self.presets[i].name.as_str());
            i = i + 1;
        }
        names
    }

    /// The position of the first preset named `name`, if there is one.
    pub fn find(&self, name: &String) -> (r: Option<usize>)
        ensures
            match r {
                Some(i) => find_name(self@, name@, 0) == Some(i as int),
                None => find_name(self@, name@, 0) is None,
            },
    {
        find_name_index(&self.presets, name)
    }

    /// A copy of the preset at a position of the list, if there is one.
    pub fn get(&self, index: usize) -> (r: Option<Preset>)
        ensures
            r is Some <==> index < self@.len(),
            r matches Some(p) ==> p@ == self@[index as int],
    {
        if index < self.presets.len() {
            Some(duplicate(&self.presets[index]))
        } else {
            None
        }
    }

    /// Saves a preset: it replaces the first preset of the same name, or is added and
    /// the list sorted by lower-case name. The updated store is handed to `write`; if
    /// writing fails, the store keeps its former presets and reports the failure.
    pub fn save<F: FnOnce(&PresetStore) -> Result<(), String>>(
        &mut self,
        preset: Preset,
        write: F,
    ) -> (r: Result<(), String>)
        requires
            accepts_any_store(write),
        ensures
            writes_answer(write, spec_saved(old(self)@, preset@), r),
            r is Ok ==> final(self)@ == spec_saved(old(self)@, preset@),
            r is Err ==> final(self)@ == old(self)@,
    {
        let updated = match find_name_index(&self.presets, &preset.name) {
            Some(index) => {
                let mut list = duplicate_all(&self.presets);
                list.set(index, preset);
                proof {
                    assert(preset_views(list@) =~= old(self)@.update(index as int, preset@));
                }
                list
            },
            None => {
                let mut list = duplicate_all(&self.presets);
                list.push(preset);
                proof {
                    assert(preset_views(list@) =~= old(self)@.push(preset@));
                }
                sorted_presets(&list)
            },
        };
        let candidate = PresetStore { presets: updated };
        let answer = write(&candidate);
        self.commit(candidate, answer)
    }

    /// Takes the presets of `candidate` when writing them succeeded, and keeps its own
    /// otherwise; the answer is handed back.
    pub fn commit(&mut self, candidate: PresetStore, answer: Result<(), String>) -> (r: Result<
        (),
        String,
    >)
        ensures
            r == answer,
            answer is Ok ==> final(self)@ == candidate@,
            answer is Err ==> final(self)@ == old(self)@,
    {
        if answer.is_ok() {
            self.presets = candidate.presets;
        }
        answer
    }

    /// Deletes the preset at a position of the list; the store without it is handed to
    /// `write`. Without a preset at that position nothing changes and nothing is written.
    /// If writing fails, the preset is kept and the failure reported.
    pub fn delete<F: FnOnce(&PresetStore) -> Result<(), String>>(
        &mut self,
        index: usize,
        write: F,
    ) -> (r: Result<Option<Preset>, String>)
        requires
            accepts_any_store(write),
        ensures
            index >= old(self)@.len() ==> r == Ok::<Option<Preset>, String>(None)
                && final(self)@ == old(self)@,
            index < old(self)@.len() ==> match r {
                Ok(Some(p)) => {
                    &&& p@ == old(self)@[index as int]
                    &&& final(self)@ == old(self)@.remove(index as int)
                    &&& writes_answer(write, old(self)@.remove(index as int), Ok(()))
                },
                Err(error) => {
                    &&& final(self)@ == old(self)@
                    &&& writes_answer(write, old(self)@.remove(index as int), Err(error))
                },
                Ok(None) => false,
            },
    {
        if index >= self.presets.len() {
            return Ok(None);
        }
        let mut rest = duplicate_all(&self.presets);
        let removed = rest.remove(index);
        proof {
            assert(preset_views(rest@) =~= old(self)@.remove(index as int));
        }
        let candidate = PresetStore { presets: rest };
        let answer = write(&candidate);
        assert(writes_answer(write, old(self)@.remove(index as int), answer));
        match self.commit(candidate, answer) {
            Ok(()) => Ok(Some(removed)),
            Err(error) => Err(error),
        }
    }
}

/// No text comes strictly before itself.
pub proof fn lemma_lex_irreflexive(a: Seq<char>)
    ensures
        !lex_lt(a, a),
    decreases a.len(),
{
    if a.len() > 0 {
        lemma_lex_irreflexive(a.drop_first());
    }
}

/// The order on texts is transitive.
pub proof fn lemma_lex_transitive(a: Seq<char>, b: Seq<char>, c: Seq<char>)
    requires
        lex_lt(a, b),
        lex_lt(b, c),
    ensures
        lex_lt(a, c),
    decreases a.len(),
{
    if a.len() > 0 && b.len() > 0 && c.len() > 0 && a[0] == b[0] && b[0] == c[0] {
        lemma_lex_transitive(a.drop_first(), b.drop_first(), c.drop_first());
    }
}

/// Of two different texts, one comes strictly before the other.
pub proof fn lemma_lex_total(a: Seq<char>, b: Seq<char>)
    requires
        a != b,
    ensures
        lex_lt(a, b) || lex_lt(b, a),
    decreases a.len(),
{
    if a.len() == 0 && b.len() == 0 {
        assert(a =~= b);
    } else if a.len() > 0 && b.len() > 0 && a[0] == b[0] {
        if a.drop_first() == b.drop_first() {
            assert(a =~= seq![a[0]] + a.drop_first());
            assert(b =~= seq![b[0]] + b.drop_first());
        }
        lemma_lex_total(a.drop_first(), b.drop_first());
    } else if a.len() > 0 && b.len() > 0 {
        assert((a[0] as int) != (b[0] as int));
    }
}

/// May-stand-before is transitive.
pub proof fn lemma_key_le_transitive(a: PresetView, b: PresetView, c: PresetView)
    requires
        key_le(a, b),
        key_le(b, c),
    ensures
        key_le(a, c),
{
    let (ka, kb, kc) = (name_key(a), name_key(b), name_key(c));
    if lex_lt(kc, ka) {
        if ka == kb {
        } else {
            lemma_lex_total(ka, kb);
            lemma_lex_transitive(kc, ka, kb);
        }
    }
}

proof fn lemma_first_after(s: Seq<PresetView>, p: PresetView, j: int)
    requires
        0 <= j <= s.len(),
    ensures
        j <= first_after(s, p, j) <= s.len(),
        forall|m: int| j <= m < first_after(s, p, j) ==> !lex_lt(name_key(p), name_key(#[trigger] s[m])),
        first_after(s, p, j) < s.len() ==> lex_lt(name_key(p), name_key(s[first_after(s, p, j)])),
    decreases s.len() - j,
{
    if j < s.len() && !lex_lt(name_key(p), name_key(s[j])) {
        lemma_first_after(s, p, j + 1);
    }
}

proof fn lemma_insert_keeps_sorted(s: Seq<PresetView>, p: PresetView)
    requires
        sorted_by_name(s),
    ensures
        sorted_by_name(insert_by_name(s, p)),
{
    let pos = first_after(s, p, 0);
    lemma_first_after(s, p, 0);
    let t = insert_by_name(s, p);
    assert forall|i: int, j: int| 0 <= i < j < t.len() implies key_le(#[trigger] t[i], #[trigger] t[j]) by {
        if j < pos {
            assert(t[i] == s[i] && t[j] == s[j]);
        } else if j == pos {
            assert(t[i] == s[i]);
        } else if i < pos {
            assert(t[i] == s[i] && t[j] == s[j - 1]);
            if pos < s.len() {
                lemma_lex_irreflexive(name_key(p));
                assert(key_le(s[i], p));
                if lex_lt(name_key(s[pos]), name_key(p)) {
                    lemma_lex_transitive(name_key(p), name_key(s[pos]), name_key(p));
                }
                assert(key_le(p, s[pos]));
                if pos < j - 1 {
                    assert(key_le(s[pos], s[j - 1]));
                    lemma_key_le_transitive(p, s[pos], s[j - 1]);
                }
                lemma_key_le_transitive(s[i], p, s[j - 1]);
            }
        } else if i == pos {
            assert(t[j] == s[j - 1]);
            if lex_lt(name_key(s[pos]), name_key(p)) {
                lemma_lex_transitive(name_key(p), name_key(s[pos]), name_key(p));
                lemma_lex_irreflexive(name_key(p));
            }
            if pos < j - 1 {
                assert(key_le(s[pos], s[j - 1]));
                lemma_key_le_transitive(p, s[pos], s[j - 1]);
            }
        } else {
            assert(t[i] == s[i - 1] && t[j] == s[j - 1]);
        }
    }
}

/// Sorting by name gives a list in lower-case name order.
pub proof fn lemma_sort_is_sorted(s: Seq<PresetView>)
    ensures
        sorted_by_name(sort_by_name(s)),
    decreases s.len(),
{
    if s.len() > 0 {
        lemma_sort_is_sorted(s.drop_last());
        lemma_insert_keeps_sorted(sort_by_name(s.drop_last()), s.last());
    }
}

/// Sorting by name keeps exactly the presets it was given.
pub proof fn lemma_sort_keeps_presets(s: Seq<PresetView>, x: PresetView)
    ensures
        sort_by_name(s).len() == s.len(),
        sort_by_name(s).contains(x) <==> s.contains(x),
    decreases s.len(),
{
    if s.len() > 0 {
        let rest = s.drop_last();
        lemma_sort_keeps_presets(rest, x);
        let sorted = sort_by_name(rest);
        let pos = first_after(sorted, s.last(), 0);
        lemma_first_after(sorted, s.last(), 0);
        let t = sorted.insert(pos, s.last());
        if t.contains(x) {
            let k = choose|k: int| 0 <= k < t.len() && t[k] == x;
            if k < pos {
                assert(sorted[k] == x);
            } else if k > pos {
                assert(sorted[k - 1] == x);
            }
            if x != s.last() {
                let m = choose|m: int| 0 <= m < rest.len() && rest[m] == x;
                assert(s[m] == x);
            } else {
                assert(s[s.len() - 1] == x);
            }
        }
        if s.contains(x) {
            let m = choose|m: int| 0 <= m < s.len() && s[m] == x;
            if m == s.len() - 1 {
                assert(t[pos] == x);
            } else {
                assert(rest[m] == x);
                let k = choose|k: int| 0 <= k < sorted.len() && sorted[k] == x;
                if k < pos {
                    assert(t[k] == x);
                } else {
                    assert(t[k + 1] == x);
                }
            }
        }
    }
}

proof fn lemma_find_name_some(s: Seq<PresetView>, name: Seq<char>, j: int, i: int)
    requires
        0 <= j <= i < s.len(),
        s[i].name == name,
        forall|k: int| j <= k < i ==> (#[trigger] s[k]).name != name,
    ensures
        find_name(s, name, j) == Some(i),
    decreases i - j,
{
    if j < i {
        lemma_find_name_some(s, name, j + 1, i);
    }
}

proof fn lemma_find_name_result(s: Seq<PresetView>, name: Seq<char>, j: int)
    requires
        0 <= j <= s.len(),
    ensures
        match find_name(s, name, j) {
            Some(i) => j <= i < s.len() && s[i].name == name && forall|k: int|
                j <= k < i ==> (#[trigger] s[k]).name != name,
            None => forall|k: int| j <= k < s.len() ==> (#[trigger] s[k]).name != name,
        },
    decreases s.len() - j,
{
    if j < s.len() && s[j].name != name {
        lemma_find_name_result(s, name, j + 1);
    }
}

/// After a preset is saved, looking its name up in the list finds that very preset.
pub proof fn lemma_saved_preset_is_found(s: Seq<PresetView>, p: PresetView)
    ensures
        match find_name(spec_saved(s, p), p.name, 0) {
            Some(i) => spec_saved(s, p)[i] == p,
            None => false,
        },
{
    lemma_find_name_result(s, p.name, 0);
    match find_name(s, p.name, 0) {
        Some(i) => {
            let t = s.update(i, p);
            assert forall|k: int| 0 <= k < i implies (#[trigger] t[k]).name != p.name by {
                assert(t[k] == s[k]);
            }
            lemma_find_name_some(t, p.name, 0, i);
        },
        None => {
            let u = s.push(p);
            let t = sort_by_name(u);
            lemma_sort_keeps_presets(u, p);
            assert(u[s.len() as int] == p);
            let k = choose|k: int| 0 <= k < t.len() && t[k] == p;
            assert(t[k].name == p.name);
            lemma_find_name_result(t, p.name, 0);
            match find_name(t, p.name, 0) {
                Some(i) => {
                    lemma_sort_keeps_presets(u, t[i]);
                    assert(t.contains(t[i]));
                    let m = choose|m: int| 0 <= m < u.len() && u[m] == t[i];
                    if m < s.len() {
                        assert(u[m] == s[m]);
                    }
                },
                None => {},
            }
        },
    }
}

/// Saving the same preset twice leaves the list as saving it once.
pub proof fn lemma_save_is_idempotent(s: Seq<PresetView>, p: PresetView)
    ensures
        spec_saved(spec_saved(s, p), p) == spec_saved(s, p),
{
    lemma_saved_preset_is_found(s, p);
    let t = spec_saved(s, p);
    lemma_find_name_result(t, p.name, 0);
    match find_name(t, p.name, 0) {
        Some(i) => {
            assert(t.update(i, p) =~= t);
        },
        None => {},
    }
}

/// A list in lower-case name order stays in that order when a preset is saved; the list
/// grows by one exactly when the name is new.
pub proof fn lemma_save_keeps_order(s: Seq<PresetView>, p: PresetView)
    ensures
        sorted_by_name(s) ==> sorted_by_name(spec_saved(s, p)),
        spec_saved(s, p).len() == if find_name(s, p.name, 0) is Some {
            s.len()
        } else {
            s.len() + 1
        },
{
    lemma_find_name_result(s, p.name, 0);
    lemma_sort_keeps_presets(s.push(p), p);
    lemma_sort_is_sorted(s.push(p));
    match find_name(s, p.name, 0) {
        Some(i) => {
            let t = s.update(i, p);
            if sorted_by_name(s) {
                assert forall|a: int, b: int| 0 <= a < b < t.len() implies key_le(
                    #[trigger] t[a],
                    #[trigger] t[b],
                ) by {
                    assert(key_le(s[a], s[b]));
                }
            }
        },
        None => {},
    }
}

/// No two presets of the list share a name.
pub open spec fn names_distinct(s: Seq<PresetView>) -> bool {
    forall|i: int, j: int| 0 <= i < j < s.len() ==> (#[trigger] s[i]).name != (#[trigger] s[j]).name
}

proof fn lemma_insert_keeps_names_distinct(s: Seq<PresetView>, p: PresetView)
    requires
        names_distinct(s),
        forall|k: int| 0 <= k < s.len() ==> (#[trigger] s[k]).name != p.name,
    ensures
        names_distinct(insert_by_name(s, p)),
{
    let pos = first_after(s, p, 0);
    lemma_first_after(s, p, 0);
    let t = insert_by_name(s, p);
    assert forall|i: int, j: int| 0 <= i < j < t.len() implies (#[trigger] t[i]).name != (
    #[trigger] t[j]).name by {
        if j < pos {
            assert(t[i] == s[i] && t[j] == s[j]);
        } else if j == pos {
            assert(t[i] == s[i]);
        } else if i < pos {
            assert(t[i] == s[i] && t[j] == s[j - 1]);
        } else if i == pos {
            assert(t[j] == s[j - 1]);
        } else {
            assert(t[i] == s[i - 1] && t[j] == s[j - 1]);
        }
    }
}

proof fn lemma_sort_keeps_names_distinct(s: Seq<PresetView>)
    requires
        names_distinct(s),
    ensures
        names_distinct(sort_by_name(s)),
    decreases s.len(),
{
    if s.len() > 0 {
        let rest = s.drop_last();
        assert forall|i: int, j: int| 0 <= i < j < rest.len() implies (#[trigger] rest[i]).name != (
        #[trigger] rest[j]).name by {
            assert(rest[i] == s[i] && rest[j] == s[j]);
        }
        lemma_sort_keeps_names_distinct(rest);
        let sorted = sort_by_name(rest);
        assert forall|k: int| 0 <= k < sorted.len() implies (#[trigger] sorted[k]).name != s.last().name by {
            lemma_sort_keeps_presets(rest, sorted[k]);
            assert(sorted.contains(sorted[k]));
            let m = choose|m: int| 0 <= m < rest.len() && rest[m] == sorted[k];
            assert(s[m] == rest[m]);
        }
        lemma_insert_keeps_names_distinct(sorted, s.last());
    }
}

/// Saving a preset into a list whose names are distinct gives a list whose names are
/// distinct.
pub proof fn lemma_save_keeps_names_distinct(s: Seq<PresetView>, p: PresetView)
    requires
        names_distinct(s),
    ensures
        names_distinct(spec_saved(s, p)),
{
    lemma_find_name_result(s, p.name, 0);
    match find_name(s, p.name, 0) {
        Some(i) => {
            let t = s.update(i, p);
            assert forall|a: int, b: int| 0 <= a < b < t.len() implies (#[trigger] t[a]).name != (
            #[trigger] t[b]).name by {
                assert(s[a].name != s[b].name);
            }
        },
        None => {
            let u = s.push(p);
            assert forall|a: int, b: int| 0 <= a < b < u.len() implies (#[trigger] u[a]).name != (
            #[trigger] u[b]).name by {
                if b == s.len() {
                    assert(u[a] == s[a]);
                } else {
                    assert(u[a] == s[a] && u[b] == s[b]);
                }
            }
            lemma_sort_keeps_names_distinct(u);
        },
    }
}

/// Deleting a preset keeps the list in lower-case name order and its names distinct.
pub proof fn lemma_delete_keeps_listing(s: Seq<PresetView>, i: int)
    requires
        0 <= i < s.len(),
    ensures
        sorted_by_name(s) ==> sorted_by_name(s.remove(i)),
        names_distinct(s) ==> names_distinct(s.remove(i)),
{
    let t = s.remove(i);
    assert forall|a: int, b: int| 0 <= a < b < t.len() implies {
        &&& sorted_by_name(s) ==> key_le(#[trigger] t[a], #[trigger] t[b])
        &&& names_distinct(s) ==> t[a].name != t[b].name
    } by {
        if b < i {
            assert(t[a] == s[a] && t[b] == s[b]);
        } else if a < i {
            assert(t[a] == s[a] && t[b] == s[b + 1]);
        } else {
            assert(t[a] == s[a + 1] && t[b] == s[b + 1]);
        }
    }
}

/// The listing key of an ASCII name has one character for each character of the name:
/// each capital `A` to `Z` becomes its small letter, and every other character stays.
pub proof fn lemma_ascii_key_lowers_capitals(t: Seq<char>)
    requires
        is_ascii_text(t),
    ensures
        lower_key(t).len() == t.len(),
        forall|i: int|
            0 <= i < t.len() ==> {
                &&& 65 <= (t[i] as u32) <= 90 ==> (#[trigger] lower_key(t)[i]) as u32 == (t[i] as u32)
                    + 32
                &&& !(65 <= (t[i] as u32) <= 90) ==> lower_key(t)[i] == t[i]
            },
{
}

/// Names that differ only in the case of ASCII letters are listed under the same key, so
/// the listing ignores case.
pub proof fn lemma_case_is_ignored(a: Seq<char>, b: Seq<char>)
    requires
        is_ascii_text(a),
        is_ascii_text(b),
        a.len() == b.len(),
        forall|i: int|
            0 <= i < a.len() ==> {
                ||| #[trigger] a[i] == b[i]
                ||| 65 <= (a[i] as u32) <= 90 && (b[i] as u32) == (a[i] as u32) + 32
                ||| 65 <= (b[i] as u32) <= 90 && (a[i] as u32) == (b[i] as u32) + 32
            },
    ensures
        lower_key(a) == lower_key(b),
{
    lemma_ascii_key_lowers_capitals(a);
    lemma_ascii_key_lowers_capitals(b);
    assert forall|i: int| 0 <= i < a.len() implies lower_key(a)[i] == lower_key(b)[i] by {
        assert(lower_key(a)[i] as u32 == lower_key(b)[i] as u32);
    }
    assert(lower_key(a) =~= lower_key(b));
}

} // verus!

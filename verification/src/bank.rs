//! The sentences to practise on, by language.
//!
//! A bank maps language codes to non-empty lists of sentences and names one
//! of its languages as the default. A request for a language that the bank
//! does not hold is answered from the default language.

use rand::rngs::SmallRng;
use rand::seq::SliceRandom;
use rand::SeedableRng;
use vstd::prelude::*;

verus! {

/// The texts of a list of sentences.
pub open spec fn texts(sentences: Seq<String>) -> Seq<Seq<char>> {
    Seq::new(sentences.len(), |i: int| sentences[i]@)
}

/// One language of a bank: its code and its sentences.
struct LanguageEntry {
    code: String,
    sentences: Vec<String>,
}

/// Sentences by language code, with a default language.
pub struct SentenceBank {
    entries: Vec<LanguageEntry>,
    default_index: usize,
}

/// One sentence of `sentences`, drawn at random.
///
/// Calls `rand::seq::SliceRandom::choose` on the slice, with a
/// `rand::rngs::SmallRng` that `rand::SeedableRng::from_entropy` has just
/// seeded. Of `choose` this claims what its documentation says: the result
/// is `None` for an empty slice and otherwise a reference to one of the
/// slice's elements. Which one is left open, and nothing is claimed of how
/// the draws are distributed. The seeding panics where the operating system
/// has no entropy to give; no argument of this function has a part in that.
#[verifier::external_body]
fn choose_sentence<'a>(sentences: &'a Vec<String>) -> (chosen: Option<&'a String>)
    ensures
        sentences@.len() == 0 ==> chosen is None,
        sentences@.len() > 0 ==> chosen is Some,
        chosen matches Some(sentence) ==> exists|i: int|
            0 <= i < sentences@.len() && sentences@[i] == *sentence,
{
    let mut rng = SmallRng::from_entropy();
    sentences.choose(&mut rng)
}

impl View for SentenceBank {
    type V = Map<Seq<char>, Seq<Seq<char>>>;

    /// The sentences' texts by language code.
    closed spec fn view(&self) -> Map<Seq<char>, Seq<Seq<char>>> {
        Map::new(
            |code: Seq<char>| exists|i: int| self.holds(i, code),
            |code: Seq<char>| texts(self.entries[choose|i: int| self.holds(i, code)].sentences@),
        )
    }
}

impl SentenceBank {
    /// Whether entry `i` exists and is the one of the language `code`.
    spec fn holds(&self, i: int, code: Seq<char>) -> bool {
        0 <= i < self.entries.len() && self.entries[i].code@ == code
    }

    /// No language occurs twice, every language has a sentence, and the
    /// default language is one of them.
    pub closed spec fn wf(&self) -> bool {
        &&& self.default_index < self.entries.len()
        &&& forall|i: int|
            0 <= i < self.entries.len() ==> (#[trigger] self.entries[i]).sentences.len() > 0
        &&& forall|i: int, j: int|
            0 <= i < j < self.entries.len() ==> (#[trigger] self.entries[i]).code@ != (
            #[trigger] self.entries[j]).code@
    }

    /// The code of the language that stands in for unknown ones.
    pub closed spec fn default_language(&self) -> Seq<char> {
        self.entries[self.default_index as int].code@
    }

    /// The sentences that a request for `code` is answered from: those of
    /// `code` where the bank holds it, else those of the default language.
    pub open spec fn candidates(&self, code: Seq<char>) -> Seq<Seq<char>> {
        if self@.dom().contains(code) {
            self@[code]
        } else {
            self@[self.default_language()]
        }
    }

    /// The view at the code of entry `i` is that entry's sentences.
    proof fn lemma_entry(&self, i: int)
        requires
            self.wf(),
            0 <= i < self.entries.len(),
        ensures
            self@.dom().contains(self.entries[i].code@),
            self@[self.entries[i].code@] == texts(self.entries[i].sentences@),
    {
        let code = self.entries[i].code@;
        assert(self.holds(i, code));
        let j = choose|j: int| self.holds(j, code);
        assert(self.holds(j, code));
        assert(i == j);
    }

    /// Replacing or appending the entry at `at` leaves every other language
    /// as it was.
    proof fn lemma_other_language(
        before: SentenceBank,
        after: SentenceBank,
        at: int,
        other: Seq<char>,
    )
        requires
            before.wf(),
            after.wf(),
            0 <= at < after.entries.len(),
            after.entries.len() == before.entries.len() || (after.entries.len()
                == before.entries.len() + 1 && at == before.entries.len()),
            forall|j: int|
                0 <= j < before.entries.len() && j != at ==> after.entries[j] == before.entries[j],
            after.entries[at].code@ != other,
            at < before.entries.len() ==> before.entries[at].code@ != other,
        ensures
            after@.dom().contains(other) <==> before@.dom().contains(other),
            before@.dom().contains(other) ==> after@[other] == before@[other],
    {
        if before@.dom().contains(other) {
            let j = choose|j: int| before.holds(j, other);
            assert(before.holds(j, other));
            assert(after.holds(j, other));
            before.lemma_entry(j);
            after.lemma_entry(j);
        }
        if after@.dom().contains(other) {
            let j = choose|j: int| after.holds(j, other);
            assert(after.holds(j, other));
            assert(before.holds(j, other));
        }
    }

    /// A well-formed bank holds its default language, and every request has
    /// at least one sentence to be answered from.
    pub proof fn lemma_never_empty(&self, code: Seq<char>)
        requires
            self.wf(),
        ensures
            self@.dom().contains(self.default_language()),
            self.candidates(code).len() > 0,
            forall|known: Seq<char>|
                self@.dom().contains(known) ==> (#[trigger] self@[known]).len() > 0,
    {
        self.lemma_entry(self.default_index as int);
        assert forall|known: Seq<char>| self@.dom().contains(known) implies (
        #[trigger] self@[known]).len() > 0 by {
            let i = choose|i: int| self.holds(i, known);
            assert(self.holds(i, known));
            self.lemma_entry(i);
        }
    }

    /// A bank of one language, which is its default. `None` where
    /// `sentences` is empty.
    pub fn new(default_code: String, sentences: Vec<String>) -> (bank: Option<SentenceBank>)
        ensures
            bank is Some <==> sentences@.len() > 0,
            bank matches Some(b) ==> {
                &&& b.wf()
                &&& b.default_language() == default_code@
                &&& b@ =~= Map::<Seq<char>, Seq<Seq<char>>>::empty().insert(
                    default_code@,
                    texts(sentences@),
                )
            },
    {
        if sentences.len() == 0 {
            return None;
        }
        let mut entries: Vec<LanguageEntry> = Vec::new();
        entries.push(LanguageEntry { code: default_code, sentences });
        let bank = SentenceBank { entries, default_index: 0 };
        proof {
            bank.lemma_entry(0);
            assert forall|code: Seq<char>| bank@.dom().contains(code) implies code
                == default_code@ by {
                let i = choose|i: int| bank.holds(i, code);
                assert(bank.holds(i, code));
            }
        }
        Some(bank)
    }

    /// The index of the entry of the language `code`.
    fn find(&self, code: &str) -> (found: Option<usize>)
        requires
            self.wf(),
        ensures
            match found {
                Some(i) => self.holds(i as int, code@),
                None => forall|i: int| !self.holds(i, code@),
            },
            found is Some <==> self@.dom().contains(code@),
    {
        let wanted = code.to_owned();
        let mut i: usize = 0;
        while i < self.entries.len()
            invariant
                i <= self.entries.len(),
                wanted@ == code@,
                forall|j: int| 0 <= j < i ==> !self.holds(j, code@),
            decreases self.entries.len() - i,
        {
            if self.entries[i].code == wanted {
                assert(self.holds(i as int, code@));
                return Some(i);
            }
            i = i + 1;
        }
        None
    }

    /// Gives `code` the sentences `sentences`, in place of any it had.
    /// Nothing changes, and `false` is returned, where `sentences` is empty.
    pub fn add_language(&mut self, code: String, sentences: Vec<String>) -> (added: bool)
        requires
            old(self).wf(),
        ensures
            final(self).wf(),
            final(self).default_language() == old(self).default_language(),
            added <==> sentences@.len() > 0,
            added ==> final(self)@ =~= old(self)@.insert(code@, texts(sentences@)),
            !added ==> final(self)@ == old(self)@,
    {
        if sentences.len() == 0 {
            return false;
        }
        let found = self.find(code.as_str());
        let ghost before = *self;
        let ghost key = code@;
        let ghost value = texts(sentences@);
        let ghost at: int;
        let entry = LanguageEntry { code, sentences };
        match found {
            Some(i) => {
                proof {
                    at = i as int;
                }
                self.entries.set(i, entry);
            },
            None => {
                proof {
                    at = self.entries.len() as int;
                }
                self.entries.push(entry);
            },
        }
        proof {
            assert(self.entries[at] == entry);
            assert forall|j: int| 0 <= j < before.entries.len() && j != at implies self.entries[j]
                == before.entries[j] && before.entries[j].code@ != key by {
                if before.holds(j, key) {
                    assert(before.holds(at, key));
                }
            }
            assert forall|i: int, j: int| 0 <= i < j < self.entries.len() implies (
            #[trigger] self.entries[i]).code@ != (#[trigger] self.entries[j]).code@ by {
                if i != at && j != at {
                    assert(before.entries[i].code@ != before.entries[j].code@);
                }
            }
            assert(self.wf());
            self.lemma_entry(at);
            assert(self.entries[self.default_index as int].code@
                == before.entries[before.default_index as int].code@);
            let target = before@.insert(key, value);
            assert forall|k: Seq<char>| #[trigger]
                self@.dom().contains(k) <==> target.dom().contains(k) by {
                if k != key {
                    Self::lemma_other_language(before, *self, at, k);
                }
            }
            assert forall|k: Seq<char>| #[trigger] self@.dom().contains(k) implies self@[k]
                == target[k] by {
                if k != key {
                    Self::lemma_other_language(before, *self, at, k);
                }
            }
            assert(self@ =~= target);
        }
        true
    }

    /// Whether the bank holds the language `code`.
    pub fn contains(&self, code: &str) -> (known: bool)
        requires
            self.wf(),
        ensures
            known == self@.dom().contains(code@),
    {
        self.find(code).is_some()
    }

    /// The code of the default language.
    pub fn default_code(&self) -> (code: String)
        requires
            self.wf(),
        ensures
            code@ == self.default_language(),
    {
        self.entries[self.default_index].code.clone()
    }

    /// The sentences that a request for `code` is answered from.
    fn list(&self, code: &str) -> (list: &Vec<String>)
        requires
            self.wf(),
        ensures
            texts(list@) == self.candidates(code@),
            list@.len() > 0,
    {
        let index = match self.find(code) {
            Some(i) => i,
            None => self.default_index,
        };
        proof {
            self.lemma_entry(index as int);
        }
        &self.entries[index].sentences
    }

    /// How many sentences a request for `code` is answered from.
    pub fn sentence_count(&self, code: &str) -> (count: usize)
        requires
            self.wf(),
        ensures
            count == self.candidates(code@).len(),
            count > 0,
    {
        self.list(code).len()
    }

    /// The sentence at `index` among those that a request for `code` is
    /// answered from.
    pub fn sentence_at(&self, code: &str, index: usize) -> (sentence: Option<String>)
        requires
            self.wf(),
        ensures
            sentence is Some <==> index < self.candidates(code@).len(),
            sentence matches Some(s) ==> s@ == self.candidates(code@)[index as int],
    {
        let list = self.list(code);
        if index < list.len() {
            assert(texts(list@)[index as int] == list@[index as int]@);
            Some(list[index].clone())
        } else {
            None
        }
    }

    /// A sentence drawn at random for the language `code`: one of that
    /// language where the bank holds it, else one of the default language.
    pub fn pick(&self, code: &str) -> (sentence: String)
        requires
            self.wf(),
        ensures
            self.candidates(code@).contains(sentence@),
            !self@.dom().contains(code@) ==> self@[self.default_language()].contains(sentence@),
    {
        let list = self.list(code);
        match choose_sentence(list) {
            Some(chosen) => {
                proof {
                    let i = choose|i: int| 0 <= i < list@.len() && list@[i] == *chosen;
                    assert(texts(list@)[i] == chosen@);
                }
                chosen.clone()
            },
            None => vstd::pervasive::unreached(),
        }
    }
}

} // verus!

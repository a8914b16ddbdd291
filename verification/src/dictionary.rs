use vstd::hash_map::StringHashMap;
use vstd::prelude::*;

verus! {

/// The number of bytes that a word takes in UTF-8, which is what `str::len` counts.
pub open spec fn byte_len(word: Seq<char>) -> nat {
    vstd::utf8::encode_utf8(word).len()
}

/// A read-only word list: each word (in lower case) with its definition.
///
/// The view is the mapping from word to definition. Besides the lookup table
/// the dictionary keeps a list of its words, so that the words of a given
/// length can be listed.
pub struct Dictionary {
    words: Vec<String>,
    definitions: StringHashMap<String>,
}

impl View for Dictionary {
    type V = Map<Seq<char>, Seq<char>>;

    closed spec fn view(&self) -> Map<Seq<char>, Seq<char>> {
        Map::new(
            |word: Seq<char>| self.definitions@.contains_key(word),
            |word: Seq<char>| self.definitions@[word]@,
        )
    }
}

impl Dictionary {
    /// The word list and the lookup table hold the same words, each once.
    pub closed spec fn wf(&self) -> bool {
        &&& forall|i: int|
            0 <= i < self.words@.len() ==> self.definitions@.contains_key(
                #[trigger] self.words@[i]@,
            )
        &&& forall|word: Seq<char>| #[trigger]
            self.definitions@.contains_key(word) ==> self.lists(word)
        &&& forall|i: int, j: int|
            0 <= i < j < self.words@.len() ==> #[trigger] self.words@[i]@
                != #[trigger] self.words@[j]@
    }

    spec fn lists(&self, word: Seq<char>) -> bool {
        exists|i: int| 0 <= i < self.words@.len() && #[trigger] self.words@[i]@ == word
    }

    /// An empty dictionary.
    pub fn new() -> (dictionary: Self)
        ensures
            dictionary.wf(),
            dictionary@ == Map::<Seq<char>, Seq<char>>::empty(),
    {
        let dictionary = Dictionary { words: Vec::new(), definitions: StringHashMap::new() };
        assert(dictionary@ =~= Map::<Seq<char>, Seq<char>>::empty());
        dictionary
    }

    /// Adds a word with its definition; a word that is already there gets the
    /// new definition.
    pub fn insert(&mut self, word: String, definition: String)
        requires
            old(self).wf(),
        ensures
            final(self).wf(),
            final(self)@ == old(self)@.insert(word@, definition@),
    {
        let ghost before = *self;
        if !self.definitions.contains_key(word.as_str()) {
            self.words.push(word.clone());
        }
        self.definitions.insert(word, definition);
        proof {
            assert(self@ =~= before@.insert(word@, definition@));
            assert forall|w: Seq<char>| #[trigger]
                self.definitions@.contains_key(w) implies self.lists(w) by {
                if w == word@ {
                    if before.definitions@.contains_key(word@) {
                        assert(before.lists(w));
                        let i = choose|i: int|
                            0 <= i < before.words@.len() && #[trigger] before.words@[i]@ == w;
                        assert(self.words@[i]@ == w);
                    } else {
                        assert(self.words@[self.words@.len() - 1]@ == w);
                    }
                } else {
                    assert(before.definitions@.contains_key(w));
                    assert(before.lists(w));
                    let i = choose|i: int|
                        0 <= i < before.words@.len() && #[trigger] before.words@[i]@ == w;
                    assert(self.words@[i]@ == w);
                }
            }
        }
    }

    /// Whether `word` is an entry.
    pub fn contains_key(&self, word: &str) -> (found: bool)
        ensures
            found == self@.contains_key(word@),
    {
        self.definitions.contains_key(word)
    }

    /// The definition of `word`, if it is an entry.
    pub fn get(&self, word: &str) -> (definition: Option<&String>)
        ensures
            match definition {
                Some(text) => self@.contains_key(word@) && text@ == self@[word@],
                None => !self@.contains_key(word@),
            },
    {
        self.definitions.get(word)
    }

    /// The entries that take exactly `word_length` bytes, each once.
    pub fn words_of_length(&self, word_length: usize) -> (found: Vec<String>)
        requires
            self.wf(),
        ensures
            forall|i: int|
                0 <= i < found@.len() ==> self@.contains_key(#[trigger] found@[i]@) && byte_len(
                    found@[i]@,
                ) == word_length,
            forall|word: Seq<char>|
                self@.contains_key(word) && byte_len(word) == word_length ==> exists|i: int|
                    0 <= i < found@.len() && #[trigger] found@[i]@ == word,
            forall|i: int, j: int|
                0 <= i < j < found@.len() ==> #[trigger] found@[i]@ != #[trigger] found@[j]@,
    {
        let mut found: Vec<String> = Vec::new();
        let ghost mut origin: Seq<int> = Seq::empty();
        let total = self.words.len();
        let mut next: usize = 0;
        while next < total
            invariant
                self.wf(),
                total == self.words@.len(),
                next <= total,
                origin.len() == found@.len(),
                forall|i: int|
                    0 <= i < found@.len() ==> 0 <= #[trigger] origin[i] < next && found@[i]@
                        == self.words@[origin[i]]@ && byte_len(found@[i]@) == word_length,
                forall|i: int, j: int|
                    0 <= i < j < found@.len() ==> #[trigger] origin[i] < #[trigger] origin[j],
                forall|k: int|
                    0 <= k < next && byte_len(#[trigger] self.words@[k]@) == word_length
                        ==> exists|i: int|
                        0 <= i < found@.len() && #[trigger] found@[i]@ == self.words@[k]@,
            decreases total - next,
        {
            let word = &self.words[next];
            if word.as_str().as_bytes().len() == word_length {
                let ghost earlier = found@;
                found.push(word.clone());
                proof {
                    origin = origin.push(next as int);
                    assert forall|k: int|
                        0 <= k < next + 1 && byte_len(#[trigger] self.words@[k]@)
                            == word_length implies exists|i: int|
                        0 <= i < found@.len() && #[trigger] found@[i]@ == self.words@[k]@ by {
                        if k < next {
                            let i = choose|i: int|
                                0 <= i < earlier.len() && #[trigger] earlier[i]@
                                    == self.words@[k]@;
                            assert(found@[i]@ == self.words@[k]@);
                        } else {
                            assert(found@[found@.len() - 1]@ == self.words@[k]@);
                        }
                    }
                }
            }
            next += 1;
        }
        proof {
            assert forall|i: int| 0 <= i < found@.len() implies self@.contains_key(
                #[trigger] found@[i]@,
            ) && byte_len(found@[i]@) == word_length by {
                assert(self.definitions@.contains_key(self.words@[origin[i]]@));
            }
            assert forall|i: int, j: int| 0 <= i < j < found@.len() implies #[trigger] found@[i]@
                != #[trigger] found@[j]@ by {
                assert(origin[i] < origin[j]);
            }
            assert forall|word: Seq<char>|
                self@.contains_key(word) && byte_len(word) == word_length implies exists|i: int|
                0 <= i < found@.len() && #[trigger] found@[i]@ == word by {
                assert(self.definitions@.contains_key(word));
                assert(self.lists(word));
                let k = choose|k: int|
                    0 <= k < self.words@.len() && #[trigger] self.words@[k]@ == word;
                assert(byte_len(self.words@[k]@) == word_length);
            }
        }
        found
    }
}

} // verus!

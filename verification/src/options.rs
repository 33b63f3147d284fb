//! The options an annotation carries, and the lenient parser that reads them.

use crate::text::{
    find_char, first_index, lemma_first_index, lemma_split_concat, lemma_split_single,
    lemma_trim_holds_no_new_character, same_text, split, split_on, strip_quotes, texts, trim,
    trimmed, unquoted,
};
use vstd::prelude::*;

verus! {

/// What an annotation asks for.
#[derive(Clone, Debug, PartialEq, Eq)]
pub struct AnnotationOptions {
    /// The severity name as written; it is resolved when code is generated.
    pub level: String,
    /// The names of the parameters whose values are never shown.
    pub skip: Vec<String>,
    /// Whether the instrumentation stays in optimized builds.
    pub force: bool,
}

/// The mathematical content of an [`AnnotationOptions`].
pub ghost struct Options {
    pub level: Seq<char>,
    pub skip: Seq<Seq<char>>,
    pub force: bool,
}

impl View for AnnotationOptions {
    type V = Options;

    open spec fn view(&self) -> Options {
        Options { level: self.level@, skip: texts(self.skip@), force: self.force }
    }
}

/// The options of an annotation without parameters.
pub open spec fn default_options() -> Options {
    Options { level: "trace"@, skip: Seq::empty(), force: false }
}

/// Every text of `pieces`, trimmed.
pub open spec fn trim_each(pieces: Seq<Seq<char>>) -> Seq<Seq<char>> {
    Seq::new(pieces.len(), |i: int| trim(pieces[i]))
}

/// The options after one comma-free fragment has been read.
///
/// A fragment without `=` changes nothing. Otherwise the text before the
/// first `=` is the key and the text after it the value, both trimmed and
/// the value unquoted; `level` and `skip` replace what was there, `force`
/// holds exactly for the value `true`, and any other key changes nothing.
pub open spec fn apply_fragment(options: Options, fragment: Seq<char>) -> Options {
    let piece = trim(fragment);
    match first_index(piece, '=') {
        None => options,
        Some(at) => {
            let key = trim(piece.take(at));
            let value = strip_quotes(trim(piece.skip(at + 1)));
            if key == "level"@ {
                Options { level: value, ..options }
            } else if key == "skip"@ {
                Options { skip: trim_each(split(value, ',')), ..options }
            } else if key == "force"@ {
                Options { force: value == "true"@, ..options }
            } else {
                options
            }
        },
    }
}

/// The options after the fragments have been read from first to last.
pub open spec fn apply_fragments(options: Options, fragments: Seq<Seq<char>>) -> Options
    decreases fragments.len(),
{
    if fragments.len() == 0 {
        options
    } else {
        apply_fragment(apply_fragments(options, fragments.drop_last()), fragments.last())
    }
}

/// The options that the parameter text of an annotation denotes.
pub open spec fn parse_options(text: Seq<char>) -> Options {
    apply_fragments(default_options(), split(text, ','))
}

/// Reading two runs of fragments one after the other is reading their
/// concatenation.
pub proof fn lemma_apply_fragments_concat(
    options: Options,
    first: Seq<Seq<char>>,
    second: Seq<Seq<char>>,
)
    ensures
        apply_fragments(options, first + second) == apply_fragments(
            apply_fragments(options, first),
            second,
        ),
    decreases second.len(),
{
    if second.len() == 0 {
        assert(first + second =~= first);
    } else {
        assert((first + second).drop_last() =~= first + second.drop_last());
        lemma_apply_fragments_concat(options, first, second.drop_last());
    }
}

/// A fragment that holds no `=` leaves the options as they were.
pub proof fn lemma_fragment_without_equals(options: Options, fragment: Seq<char>)
    requires
        !fragment.contains('='),
    ensures
        apply_fragment(options, fragment) == options,
{
    lemma_trim_holds_no_new_character(fragment, '=');
    lemma_first_index(trim(fragment), '=');
    if first_index(trim(fragment), '=') is Some {
        let at = first_index(trim(fragment), '=')->0;
        assert(trim(fragment).contains(trim(fragment)[at]));
    }
}

/// A fragment that holds no `=` contributes nothing to the parsed options,
/// whether it stands alone, last, first, or between other fragments.
pub proof fn lemma_fragment_without_equals_is_ignored(
    before: Seq<char>,
    fragment: Seq<char>,
    after: Seq<char>,
)
    requires
        !fragment.contains(','),
        !fragment.contains('='),
    ensures
        parse_options(fragment) == default_options(),
        parse_options(before + seq![','] + fragment) == parse_options(before),
        parse_options(fragment + seq![','] + after) == parse_options(after),
        parse_options(before + seq![','] + fragment + seq![','] + after) == parse_options(
            before + seq![','] + after,
        ),
{
    let start = default_options();
    let lone = seq![fragment];
    let head = split(before, ',');
    let tail = split(after, ',');
    lemma_split_single(fragment, ',');
    assert(lone.drop_last() =~= Seq::<Seq<char>>::empty());
    assert forall|o: Options| apply_fragments(o, lone) == o by {
        lemma_fragment_without_equals(o, fragment);
        assert(apply_fragments(o, lone.drop_last()) == o);
    }
    lemma_split_concat(before, fragment, ',');
    lemma_apply_fragments_concat(start, head, lone);
    lemma_split_concat(fragment, after, ',');
    lemma_apply_fragments_concat(start, lone, tail);
    lemma_split_concat(before + seq![','] + fragment, after, ',');
    lemma_apply_fragments_concat(start, head + lone, tail);
    lemma_split_concat(before, after, ',');
    lemma_apply_fragments_concat(start, head, tail);
}

/// Trims every text of `pieces`.
pub fn trimmed_each(pieces: &Vec<String>) -> (r: Vec<String>)
    ensures
        texts(r@) == trim_each(texts(pieces@)),
{
    let mut out: Vec<String> = Vec::new();
    let mut i: usize = 0;
    while i < pieces.len()
        invariant
            i <= pieces.len(),
            out.len() == i,
            forall|j: int| 0 <= j < i ==> out@[j]@ == trim(pieces@[j]@),
        decreases pieces.len() - i,
    {
        out.push(trimmed(pieces[i].as_str()).to_owned());
        i = i + 1;
    }
    assert(texts(out@) =~= trim_each(texts(pieces@)));
    out
}

impl AnnotationOptions {
    /// The options of an annotation without parameters.
    pub fn new() -> (r: AnnotationOptions)
        ensures
            r@ == default_options(),
    {
        let r = AnnotationOptions { level: "trace".to_owned(), skip: Vec::new(), force: false };
        assert(texts(r.skip@) =~= Seq::empty());
        r
    }

    /// Reads one comma-free fragment into the options.
    pub fn apply(&mut self, fragment: &str)
        ensures
            final(self)@ == apply_fragment(old(self)@, fragment@),
    {
        let piece = trimmed(fragment);
        match find_char(piece, '=') {
            None => {},
            Some(at) => {
                proof {
                    lemma_first_index(piece@, '=');
                }
                let n: usize = piece.unicode_len();
                let key = trimmed(piece.substring_char(0, at));
                let value = unquoted(trimmed(piece.substring_char(at + 1, n)));
                proof {
                    assert(piece@.take(at as int) =~= piece@.subrange(0, at as int));
                    assert(piece@.skip(at as int + 1) =~= piece@.subrange(at as int + 1, n as int));
                }
                if same_text(key, "level") {
                    self.level = value.to_owned();
                } else if same_text(key, "skip") {
                    let names = split_on(value, ',');
                    self.skip = trimmed_each(&names);
                } else if same_text(key, "force") {
                    self.force = same_text(value, "true");
                }
            },
        }
    }

    /// Parses the parameter text of an annotation. No text is rejected: what
    /// cannot be read as `key = value` is passed over.
    pub fn parse(text: &str) -> (r: AnnotationOptions)
        ensures
            r@ == parse_options(text@),
    {
        let fragments = split_on(text, ',');
        let mut options = AnnotationOptions::new();
        let mut i: usize = 0;
        assert(texts(fragments@).take(0) =~= Seq::empty());
        while i < fragments.len()
            invariant
                i <= fragments.len(),
                options@ == apply_fragments(default_options(), texts(fragments@).take(i as int)),
            decreases fragments.len() - i,
        {
            proof {
                let read = texts(fragments@).take(i as int + 1);
                assert(read.drop_last() =~= texts(fragments@).take(i as int));
                assert(read.last() == fragments@[i as int]@);
            }
            options.apply(fragments[i].as_str());
            i = i + 1;
        }
        assert(texts(fragments@).take(i as int) =~= texts(fragments@));
        options
    }

    /// Whether the value of the parameter `name` is to be withheld.
    pub fn is_skipped(&self, name: &str) -> (r: bool)
        ensures
            r == self@.skip.contains(name@),
    {
        let mut i: usize = 0;
        while i < self.skip.len()
            invariant
                i <= self.skip.len(),
                forall|j: int| 0 <= j < i ==> self.skip@[j]@ != name@,
            decreases self.skip.len() - i,
        {
            if same_text(self.skip[i].as_str(), name) {
                assert(texts(self.skip@)[i as int] == name@);
                return true;
            }
            i = i + 1;
        }
        false
    }
}

impl Default for AnnotationOptions {
    fn default() -> (r: AnnotationOptions)
        ensures
            r@ == default_options(),
    {
        AnnotationOptions::new()
    }
}

} // verus!

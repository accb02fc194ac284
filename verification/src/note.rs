use vstd::prelude::*;
use vstd::string::StringExecFns;

verus! {

/// The annotation that the text mutator writes in front of every new value.
pub open spec fn note_prefix() -> Seq<char> {
    "NOTE: "@
}

/// The stored form of a raw text: the annotation followed by the text itself.
pub open spec fn canonical(raw: Seq<char>) -> Seq<char> {
    note_prefix() + raw
}

/// The canonical form is longer than the raw text by the annotation, so it is
/// never the raw text itself, and taking it twice is not taking it once: the
/// second pass annotates the annotated text again.
pub proof fn lemma_canonical_not_idempotent(raw: Seq<char>)
    ensures
        canonical(raw).len() == raw.len() + 6,
        canonical(raw) != raw,
        canonical(canonical(raw)) != canonical(raw),
        canonical(canonical(raw)) == note_prefix() + note_prefix() + raw,
{
    reveal_strlit("NOTE: ");
    assert(canonical(canonical(raw)) =~= note_prefix() + note_prefix() + raw);
}

/// A host-owned text payload. Its view is the stored text.
#[derive(Debug)]
pub struct Note {
    text: String,
}

impl View for Note {
    type V = Seq<char>;

    closed spec fn view(&self) -> Seq<char> {
        self.text@
    }
}

impl Clone for Note {
    fn clone(&self) -> (copy: Self)
        ensures
            copy@ == self@,
    {
        Note { text: self.text.clone() }
    }
}

impl Note {
    /// A note holding the placeholder text.
    pub fn new() -> (note: Self)
        ensures
            note@ == "EMPTY_NOTE"@,
    {
        Note { text: "EMPTY_NOTE".to_owned() }
    }

    /// The stored text.
    pub fn text(&self) -> (text: &str)
        ensures
            text@ == self@,
    {
        self.text.as_str()
    }

    /// Replaces the stored text by the canonical form of `text`.
    pub fn set_text(&mut self, text: &str)
        ensures
            final(self)@ == canonical(text@),
    {
        let mut stored = "NOTE: ".to_owned();
        stored.append(text);
        self.text = stored;
    }
}

} // verus!

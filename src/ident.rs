use vstd::prelude::*;

verus! {

/// The length of the identifiers the service hands out.
pub const ID_LENGTH: usize = 6;

/// The largest identifier length the generator accepts.
pub const MAX_ID_LENGTH: usize = usize::MAX / 8;

/// The URL-safe characters: ASCII letters, digits, `_` and `-`.
pub open spec fn is_url_safe(c: char) -> bool {
    ('a' <= c && c <= 'z') || ('A' <= c && c <= 'Z') || ('0' <= c && c <= '9') || c == '_' || c
        == '-'
}

pub open spec fn is_ascii_char(c: char) -> bool {
    (c as u32) < 128
}

pub open spec fn all_drawn_from(s: Seq<char>, alphabet: Seq<char>) -> bool {
    forall|i: int| 0 <= i < s.len() ==> #[trigger] alphabet.contains(s[i])
}

pub open spec fn all_url_safe(s: Seq<char>) -> bool {
    forall|i: int| 0 <= i < s.len() ==> #[trigger] is_url_safe(s[i])
}

/// Relies on `nanoid::alphabet::SAFE`: the 64 URL-safe characters.
#[verifier::external_body]
fn safe_alphabet() -> (r: Vec<char>)
    ensures
        r@.len() == 64,
        all_url_safe(r@),
        forall|c: char| is_url_safe(c) ==> r@.contains(c),
{
    nanoid::alphabet::SAFE.to_vec()
}

/// Relies on `nanoid::format` with the random source `nanoid::rngs::default`:
/// `size` characters, each taken from `alphabet`. It panics on an alphabet of
/// more than 255 characters, and never returns for an empty alphabet, a size of
/// zero, or a character that is not one byte long. The random source panics
/// where the system offers no entropy, which ends the process.
#[verifier::external_body]
fn nanoid_format(alphabet: &[char], size: usize) -> (r: String)
    requires
        0 < alphabet@.len() <= 255,
        forall|i: int| 0 <= i < alphabet@.len() ==> is_ascii_char(#[trigger] alphabet@[i]),
        0 < size <= MAX_ID_LENGTH,
    ensures
        r@.len() == size,
        all_drawn_from(r@, alphabet@),
{
    nanoid::format(nanoid::rngs::default, alphabet, size)
}

/// Produces random identifiers of a fixed length over a fixed alphabet.
pub struct IdGenerator {
    alphabet: Vec<char>,
    length: usize,
}

impl IdGenerator {
    pub open spec fn valid_config(alphabet: Seq<char>, length: nat) -> bool {
        &&& 0 < alphabet.len() <= 255
        &&& forall|i: int| 0 <= i < alphabet.len() ==> is_ascii_char(#[trigger] alphabet[i])
        &&& 0 < length <= MAX_ID_LENGTH
    }

    pub closed spec fn alphabet(&self) -> Seq<char> {
        self.alphabet@
    }

    pub closed spec fn length(&self) -> nat {
        self.length as nat
    }

    pub open spec fn wf(&self) -> bool {
        Self::valid_config(self.alphabet(), self.length())
    }

    /// A generator over `alphabet`, or `None` when the alphabet is empty, longer
    /// than 255 characters or holds a non-ASCII character, or the length is zero
    /// or above `MAX_ID_LENGTH`.
    pub fn new(alphabet: Vec<char>, length: usize) -> (r: Option<IdGenerator>)
        ensures
            r is Some <==> Self::valid_config(alphabet@, length as nat),
            r is Some ==> r->Some_0.alphabet() == alphabet@ && r->Some_0.length() == length,
    {
        if alphabet.len() == 0 || alphabet.len() > 255 || length == 0 || length > MAX_ID_LENGTH {
            return None;
        }
        let mut i: usize = 0;
        while i < alphabet.len()
            invariant
                0 <= i <= alphabet@.len(),
                forall|j: int| 0 <= j < i ==> is_ascii_char(#[trigger] alphabet@[j]),
            decreases alphabet@.len() - i,
        {
            if alphabet[i] as u32 >= 128 {
                return None;
            }
            i = i + 1;
        }
        Some(IdGenerator { alphabet, length })
    }

    /// A generator of `length` characters over the URL-safe alphabet.
    pub fn url_safe(length: usize) -> (r: Option<IdGenerator>)
        ensures
            r is Some <==> 0 < length <= MAX_ID_LENGTH,
            r is Some ==> r->Some_0.length() == length && all_url_safe(r->Some_0.alphabet()),
            r is Some ==> forall|c: char| is_url_safe(c) ==> #[trigger] r->Some_0.alphabet().contains(c),
    {
        let alphabet = safe_alphabet();
        proof {
            lemma_url_safe_is_ascii(alphabet@);
        }
        Self::new(alphabet, length)
    }

    /// The generator the service uses: `ID_LENGTH` URL-safe characters.
    pub fn standard() -> (r: IdGenerator)
        ensures
            r.wf(),
            r.length() == ID_LENGTH,
            all_url_safe(r.alphabet()),
            forall|c: char| is_url_safe(c) ==> #[trigger] r.alphabet().contains(c),
    {
        let alphabet = safe_alphabet();
        proof {
            lemma_url_safe_is_ascii(alphabet@);
        }
        IdGenerator { alphabet, length: ID_LENGTH }
    }

    pub fn length_of(&self) -> (r: usize)
        ensures
            r == self.length(),
    {
        self.length
    }

    /// A fresh random identifier: `length()` characters, each drawn from
    /// `alphabet()`. Nothing makes two identifiers differ.
    pub fn generate(&self) -> (r: String)
        requires
            self.wf(),
        ensures
            r@.len() == self.length(),
            all_drawn_from(r@, self.alphabet()),
    {
        nanoid_format(self.alphabet.as_slice(), self.length)
    }
}

/// URL-safe characters are ASCII.
proof fn lemma_url_safe_is_ascii(s: Seq<char>)
    requires
        all_url_safe(s),
    ensures
        forall|i: int| 0 <= i < s.len() ==> is_ascii_char(#[trigger] s[i]),
{
    assert forall|i: int| 0 <= i < s.len() implies is_ascii_char(#[trigger] s[i]) by {
        assert(is_url_safe(s[i]));
    }
}

/// An identifier drawn from a URL-safe alphabet is URL-safe.
pub proof fn lemma_drawn_from_url_safe(s: Seq<char>, alphabet: Seq<char>)
    requires
        all_drawn_from(s, alphabet),
        all_url_safe(alphabet),
    ensures
        all_url_safe(s),
{
    assert forall|i: int| 0 <= i < s.len() implies #[trigger] is_url_safe(s[i]) by {
        assert(alphabet.contains(s[i]));
        let j = choose|j: int| 0 <= j < alphabet.len() && alphabet[j] == s[i];
        assert(is_url_safe(alphabet[j]));
    }
}

} // verus!

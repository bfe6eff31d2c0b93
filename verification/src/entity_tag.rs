//! Entity tags (RFC 7232) as the cache of the user list uses them: a weakness flag and
//! an opaque tag of at most 62 ASCII characters, as the `etag` crate stores them.
use vstd::prelude::*;

verus! {

/// What an entity tag stands for: its weakness and the characters of its opaque tag.
pub struct EntityTagView {
    pub weak: bool,
    pub tag: Seq<char>,
}

/// An entity tag, read through `is_weak` and `tag`. Its tag always fits the `etag`
/// crate's buffer.
pub struct EntityTag {
    weak: bool,
    tag: String,
}

impl View for EntityTag {
    type V = EntityTagView;

    closed spec fn view(&self) -> EntityTagView {
        EntityTagView { weak: self.weak, tag: self.tag@ }
    }
}

/// The largest tag, in characters, that the `etag` crate's buffer holds.
pub open spec fn max_tag_len() -> nat {
    62
}

/// A tag that the `etag` crate accepts: ASCII, and short enough for its buffer.
pub open spec fn valid_tag(tag: Seq<char>) -> bool {
    &&& vstd::utf8::is_ascii_chars(tag)
    &&& tag.len() <= max_tag_len()
}

/// The decimal digit for `d` (`d < 10`).
pub open spec fn digit_char(d: nat) -> char {
    (48 + d) as char
}

/// `n` written in decimal, without leading zeros.
pub open spec fn decimal(n: nat) -> Seq<char>
    decreases n,
{
    if n < 10 {
        seq![digit_char(n)]
    } else {
        decimal(n / 10).push(digit_char(n % 10))
    }
}

/// The xxh3-128 hash of `data`, which `etag::EntityTag::from_data` writes into the tag.
pub uninterp spec fn data_hash(data: Seq<u8>) -> u128;

/// The tag that `from_data` gives `data`: strong, `<byte count>-<hash>` in decimal.
pub open spec fn data_tag(data: Seq<u8>) -> EntityTagView {
    EntityTagView {
        weak: false,
        tag: decimal(data.len()) + seq!['-'] + decimal(data_hash(data) as nat),
    }
}

/// How an entity tag is written in a header: `"tag"`, or `W/"tag"` for a weak one.
pub open spec fn header_text(t: EntityTagView) -> Seq<char> {
    if t.weak {
        seq!['W', '/', '"'] + t.tag + seq!['"']
    } else {
        seq!['"'] + t.tag + seq!['"']
    }
}

/// Every character of a decimal numeral is a digit.
proof fn lemma_decimal_digits(n: nat)
    ensures
        decimal(n).len() >= 1,
        forall|i: int| 0 <= i < decimal(n).len() ==> '0' <= #[trigger] decimal(n)[i] <= '9',
    decreases n,
{
    if n >= 10 {
        lemma_decimal_digits(n / 10);
    }
}

/// A numeral names one number.
proof fn lemma_decimal_injective(a: nat, b: nat)
    requires
        decimal(a) == decimal(b),
    ensures
        a == b,
    decreases a,
{
    lemma_decimal_digits(a);
    lemma_decimal_digits(b);
    if a < 10 && b < 10 {
        assert(decimal(a)[0] == digit_char(a));
        assert(decimal(b)[0] == digit_char(b));
    } else if a < 10 {
        lemma_decimal_digits(b / 10);
        assert(decimal(b).len() >= 2);
    } else if b < 10 {
        lemma_decimal_digits(a / 10);
        assert(decimal(a).len() >= 2);
    } else {
        assert(decimal(a).last() == digit_char(a % 10));
        assert(decimal(b).last() == digit_char(b % 10));
        assert(decimal(a / 10) =~= decimal(a).drop_last());
        assert(decimal(b / 10) =~= decimal(b).drop_last());
        lemma_decimal_injective(a / 10, b / 10);
    }
}

/// `10` to the power `k`.
pub open spec fn pow10(k: nat) -> nat
    decreases k,
{
    if k == 0 {
        1
    } else {
        10 * pow10((k - 1) as nat)
    }
}

/// A number below `10^k` has at most `k` digits.
proof fn lemma_decimal_len(n: nat, k: nat)
    requires
        k >= 1,
        n < pow10(k),
    ensures
        decimal(n).len() <= k,
    decreases n,
{
    if n >= 10 {
        if k == 1 {
            assert(pow10(1) == 10 * pow10(0));
        } else {
            assert(pow10(k) == 10 * pow10((k - 1) as nat));
            lemma_decimal_len(n / 10, (k - 1) as nat);
        }
    }
}

/// Every tag that `from_data` gives fits the `etag` crate's buffer: a byte count has at
/// most 20 digits and a 128-bit hash at most 39.
pub proof fn lemma_data_tag_fits(data: Seq<u8>)
    requires
        data.len() <= usize::MAX,
    ensures
        valid_tag(data_tag(data).tag),
{
    let n1 = decimal(data.len());
    let n2 = decimal(data_hash(data) as nat);
    assert(pow10(20) == 100000000000000000000nat) by {
        reveal_with_fuel(pow10, 21);
    }
    assert(pow10(39) == 1000000000000000000000000000000000000000nat) by {
        reveal_with_fuel(pow10, 40);
    }
    lemma_decimal_len(data.len(), 20);
    lemma_decimal_len(data_hash(data) as nat, 39);
    lemma_decimal_digits(data.len());
    lemma_decimal_digits(data_hash(data) as nat);
    let t = data_tag(data).tag;
    assert forall|i: int| 0 <= i < t.len() implies '\0' <= #[trigger] t[i] <= '\u{7f}' by {
        if i < n1.len() {
            assert(t[i] == n1[i]);
        } else if i == n1.len() {
            assert(t[i] == '-');
        } else {
            assert(t[i] == n2[i - n1.len() - 1]);
        }
    }
}

/// The tag of `from_data` begins with the byte count, and a `-` ends it: two data of
/// different lengths never share a tag.
pub proof fn lemma_data_tags_differ_by_length(d1: Seq<u8>, d2: Seq<u8>)
    requires
        d1.len() != d2.len(),
    ensures
        data_tag(d1).tag != data_tag(d2).tag,
{
    let n1 = decimal(d1.len());
    let n2 = decimal(d2.len());
    let t1 = data_tag(d1).tag;
    let t2 = data_tag(d2).tag;
    lemma_decimal_digits(d1.len());
    lemma_decimal_digits(d2.len());
    if t1 == t2 {
        if n1.len() < n2.len() {
            assert(t1[n1.len() as int] == '-');
            assert(t2[n1.len() as int] == n2[n1.len() as int]);
        } else if n2.len() < n1.len() {
            assert(t2[n2.len() as int] == '-');
            assert(t1[n2.len() as int] == n1[n2.len() as int]);
        } else {
            assert(n1 =~= t1.subrange(0, n1.len() as int));
            assert(n2 =~= t2.subrange(0, n2.len() as int));
            lemma_decimal_injective(d1.len(), d2.len());
        }
    }
}

impl EntityTag {
    #[verifier::type_invariant]
    spec fn fits(self) -> bool {
        valid_tag(self.tag@)
    }

    /// A tag with the given weakness. The `etag` crate asserts, in debug builds, that the
    /// tag is ASCII and fits its buffer.
    pub fn new(weak: bool, tag: &str) -> (r: EntityTag)
        requires
            valid_tag(tag@),
        ensures
            r@ == (EntityTagView { weak, tag: tag@ }),
    {
        EntityTag { weak, tag: String::from_str(tag) }
    }

    /// A weak tag.
    pub fn weak(tag: &str) -> (r: EntityTag)
        requires
            valid_tag(tag@),
        ensures
            r@ == (EntityTagView { weak: true, tag: tag@ }),
    {
        EntityTag::new(true, tag)
    }

    /// A strong tag.
    pub fn strong(tag: &str) -> (r: EntityTag)
        requires
            valid_tag(tag@),
        ensures
            r@ == (EntityTagView { weak: false, tag: tag@ }),
    {
        EntityTag::new(false, tag)
    }

    /// Whether the tag is weak.
    pub fn is_weak(&self) -> (r: bool)
        ensures
            r == self@.weak,
    {
        self.weak
    }

    /// The opaque tag.
    pub fn tag(&self) -> (r: &str)
        ensures
            r@ == self@.tag,
            valid_tag(r@),
    {
        proof {
            use_type_invariant(self);
        }
        self.tag.as_str()
    }

    /// Calls `etag::EntityTag::from_data`, which hashes `data` with xxh3-128 and writes
    /// `"{}-{}"` of the byte count and the hash into a strong tag. The hash itself is
    /// not stated: `data_hash` names it. The tag it writes fits the tag's invariant, as
    /// `lemma_data_tag_fits` shows.
    #[verifier::external_body]
    pub(crate) fn from_data(data: &[u8]) -> (r: EntityTag)
        ensures
            r@.weak == false,
            r@.tag == decimal(data@.len()) + seq!['-'] + decimal(data_hash(data@) as nat),
    {
        let t = etag::EntityTag::from_data(data);
        EntityTag { weak: t.weak, tag: t.tag().to_string() }
    }

    /// The header form of the tag: `"tag"`, or `W/"tag"` when it is weak.
    pub fn to_string(&self) -> (r: String)
        ensures
            r@ == header_text(self@),
    {
        let mut out = if self.weak {
            String::from_str("W/\"")
        } else {
            String::from_str("\"")
        };
        out.append(self.tag.as_str());
        out.append("\"");
        proof {
            reveal_strlit("W/\"");
            reveal_strlit("\"");
        }
        out
    }
}

} // verus!

use vstd::prelude::*;

verus! {

/// The text that `String::from_utf8_lossy` makes of a byte sequence.
pub uninterp spec fn utf8_lossy(b: Seq<u8>) -> Seq<char>;

/// Bytes that all lie in the ASCII range.
pub open spec fn all_ascii(b: Seq<u8>) -> bool {
    forall|i: int| 0 <= i < b.len() ==> b[i] < 128
}

/// The characters that ASCII bytes stand for, one for one.
pub open spec fn ascii_chars(b: Seq<u8>) -> Seq<char> {
    Seq::new(b.len(), |i: int| b[i] as char)
}

/// The bytes of `s` before its first NUL byte, or all of `s` when it has none.
pub open spec fn before_nul(s: Seq<u8>) -> Seq<u8>
    decreases s.len(),
{
    if s.len() == 0 || s[0] == 0 {
        Seq::empty()
    } else {
        seq![s[0]] + before_nul(s.drop_first())
    }
}

/// A length reported by the driver, made into a count no larger than `cap`.
pub open spec fn clamp_len(len: i32, cap: nat) -> nat {
    if len <= 0 {
        0
    } else if len as nat > cap {
        cap
    } else {
        len as nat
    }
}

/// The name that the driver wrote into `buf`, `len` being the length it reported.
pub open spec fn name_in(buf: Seq<u8>, len: i32) -> Seq<u8> {
    before_nul(buf.take(clamp_len(len, buf.len()) as int))
}

/// A buffer of `len` spaces: room for a driver string of that length.
pub open spec fn spaces(len: i32) -> Seq<u8> {
    Seq::new(clamp_len(len, len as nat), |i: int| 32u8)
}

proof fn lemma_before_nul_take(s: Seq<u8>, i: int)
    requires
        0 <= i <= s.len(),
        forall|j: int| 0 <= j < i ==> s[j] != 0,
        i == s.len() || s[i] == 0,
    ensures
        before_nul(s) == s.take(i),
    decreases i,
{
    if i == 0 {
        assert(s.take(0) =~= Seq::<u8>::empty());
    } else {
        lemma_before_nul_take(s.drop_first(), i - 1);
        assert(s.take(i) =~= seq![s[0]] + s.drop_first().take(i - 1));
    }
}

/// Relies on `String::from_utf8_lossy`: its result depends on the bytes alone,
/// and ASCII bytes, being valid UTF-8, come through one character each.
#[verifier::external_body]
pub(crate) fn lossy_text(b: &Vec<u8>) -> (r: String)
    ensures
        r@ == utf8_lossy(b@),
        all_ascii(b@) ==> r@ == ascii_chars(b@),
{
    String::from_utf8_lossy(b.as_slice()).into_owned()
}

/// A buffer of `len` spaces (none when `len` is not positive), into which the
/// driver writes a string it reported to be `len` bytes long.
pub fn whitespace_buffer(len: i32) -> (r: Vec<u8>)
    ensures
        r@ == spaces(len),
{
    let n: usize = if len <= 0 {
        0
    } else {
        len as usize
    };
    let mut buffer: Vec<u8> = Vec::with_capacity(n);
    let mut i: usize = 0;
    while i < n
        invariant
            i <= n,
            n == clamp_len(len, len as nat),
            buffer@ == Seq::new(i as nat, |k: int| 32u8),
        decreases n - i,
    {
        buffer.push(32u8);
        i += 1;
        assert(buffer@ =~= Seq::new(i as nat, |k: int| 32u8));
    }
    assert(buffer@ =~= spaces(len));
    buffer
}

/// The bytes of `buf` before its first NUL: the string a driver wrote there.
pub fn text_before_nul(buf: &Vec<u8>) -> (r: Vec<u8>)
    ensures
        r@ == before_nul(buf@),
{
    let mut i: usize = 0;
    while i < buf.len() && buf[i] != 0
        invariant
            i <= buf@.len(),
            forall|j: int| 0 <= j < i ==> buf@[j] != 0,
        decreases buf@.len() - i,
    {
        i += 1;
    }
    proof {
        lemma_before_nul_take(buf@, i as int);
    }
    prefix(buf, i)
}

/// The uniform name that the driver wrote into `buf`, having reported its
/// length as `len`: no more than `len` bytes, and none from a NUL on.
pub fn decode_name(buf: &Vec<u8>, len: i32) -> (r: Vec<u8>)
    ensures
        r@ == name_in(buf@, len),
{
    let n: usize = if len <= 0 {
        0
    } else if len as usize > buf.len() {
        buf.len()
    } else {
        len as usize
    };
    let head = prefix(buf, n);
    text_before_nul(&head)
}

fn prefix(buf: &Vec<u8>, n: usize) -> (r: Vec<u8>)
    requires
        n <= buf@.len(),
    ensures
        r@ == buf@.take(n as int),
{
    let mut r: Vec<u8> = Vec::with_capacity(n);
    let mut i: usize = 0;
    while i < n
        invariant
            i <= n <= buf@.len(),
            r@ == buf@.take(i as int),
        decreases n - i,
    {
        r.push(buf[i]);
        i += 1;
        assert(r@ =~= buf@.take(i as int));
    }
    r
}

} // verus!

//! Classification of raw serial payloads as readings or device chatter.
use vstd::prelude::*;

verus! {

/// `pat` occurs in `p` starting at index `i`.
pub open spec fn occurs_at(p: Seq<u8>, pat: Seq<u8>, i: int) -> bool {
    0 <= i && i + pat.len() <= p.len() && p.subrange(i, i + pat.len()) == pat
}

/// `pat` occurs somewhere in `p` as a contiguous run.
pub open spec fn contains(p: Seq<u8>, pat: Seq<u8>) -> bool {
    exists|i: int| occurs_at(p, pat, i)
}

/// `p` ends with `suffix`.
pub open spec fn ends_with(p: Seq<u8>, suffix: Seq<u8>) -> bool {
    suffix.len() <= p.len() && p.subrange(p.len() - suffix.len(), p.len() as int) == suffix
}

/// A lone acknowledge byte sent by the scale.
pub open spec fn ack_frame() -> Seq<u8> {
    seq![0x06u8]
}

/// Echo of the status query `ESC p CR LF`.
pub open spec fn status_echo_frame() -> Seq<u8> {
    seq![0x1bu8, 0x70u8, 0x0du8, 0x0au8]
}

/// Echo of the enquiry `ENQ ? CR LF`.
pub open spec fn enquiry_echo_frame() -> Seq<u8> {
    seq![0x05u8, 0x3fu8, 0x0du8, 0x0au8]
}

/// The zero-weight frame, the ASCII text `00000`.
pub open spec fn zero_frame() -> Seq<u8> {
    seq![0x30u8, 0x30u8, 0x30u8, 0x30u8, 0x30u8]
}

/// The settling artifact that ends some frames: the ASCII text `0.005` and a line feed.
pub open spec fn settling_suffix() -> Seq<u8> {
    seq![0x30u8, 0x2eu8, 0x30u8, 0x30u8, 0x35u8, 0x0au8]
}

/// The header line the scale echoes: `Count`, eight spaces, `Weight/kg`.
pub open spec fn banner() -> Seq<u8> {
    seq![
        0x43u8, 0x6fu8, 0x75u8, 0x6eu8, 0x74u8,
        0x20u8, 0x20u8, 0x20u8, 0x20u8, 0x20u8, 0x20u8, 0x20u8, 0x20u8,
        0x57u8, 0x65u8, 0x69u8, 0x67u8, 0x68u8, 0x74u8, 0x2fu8, 0x6bu8, 0x67u8,
    ]
}

/// The control and status frames that are discarded when they make up a whole payload.
pub open spec fn is_control_frame(p: Seq<u8>) -> bool {
    p == ack_frame() || p == status_echo_frame() || p == enquiry_echo_frame()
}

/// A payload is noise when it is a known frame, the zero frame, ends with the
/// settling artifact, or holds the banner anywhere.
pub open spec fn is_noise(p: Seq<u8>) -> bool {
    is_control_frame(p) || p == zero_frame() || ends_with(p, settling_suffix())
        || contains(p, banner())
}

fn ack_frame_bytes() -> (r: Vec<u8>)
    ensures
        r@ == ack_frame(),
{
    let r = vec![0x06u8];
    assert(r@ =~= ack_frame());
    r
}

fn status_echo_bytes() -> (r: Vec<u8>)
    ensures
        r@ == status_echo_frame(),
{
    let r = vec![0x1bu8, 0x70u8, 0x0du8, 0x0au8];
    assert(r@ =~= status_echo_frame());
    r
}

fn enquiry_echo_bytes() -> (r: Vec<u8>)
    ensures
        r@ == enquiry_echo_frame(),
{
    let r = vec![0x05u8, 0x3fu8, 0x0du8, 0x0au8];
    assert(r@ =~= enquiry_echo_frame());
    r
}

fn zero_frame_bytes() -> (r: Vec<u8>)
    ensures
        r@ == zero_frame(),
{
    let r = vec![0x30u8, 0x30u8, 0x30u8, 0x30u8, 0x30u8];
    assert(r@ =~= zero_frame());
    r
}

fn settling_suffix_bytes() -> (r: Vec<u8>)
    ensures
        r@ == settling_suffix(),
{
    let r = vec![0x30u8, 0x2eu8, 0x30u8, 0x30u8, 0x35u8, 0x0au8];
    assert(r@ =~= settling_suffix());
    r
}

fn banner_bytes() -> (r: Vec<u8>)
    ensures
        r@ == banner(),
{
    let r = vec![
        0x43u8, 0x6fu8, 0x75u8, 0x6eu8, 0x74u8,
        0x20u8, 0x20u8, 0x20u8, 0x20u8, 0x20u8, 0x20u8, 0x20u8, 0x20u8,
        0x57u8, 0x65u8, 0x69u8, 0x67u8, 0x68u8, 0x74u8, 0x2fu8, 0x6bu8, 0x67u8,
    ];
    assert(r@ =~= banner());
    r
}

/// Whether `pat` occurs in `p` at index `start`.
pub fn occurs_at_exec(p: &[u8], pat: &[u8], start: usize) -> (r: bool)
    ensures
        r == occurs_at(p@, pat@, start as int),
{
    if pat.len() > p.len() || start > p.len() - pat.len() {
        return false;
    }
    let mut k: usize = 0;
    while k < pat.len()
        invariant
            start + pat.len() <= p.len(),
            k <= pat.len(),
            forall|j: int| 0 <= j < k ==> p@[start + j] == pat@[j],
        decreases pat.len() - k,
    {
        if p[start + k] != pat[k] {
            assert(p@.subrange(start as int, start + pat.len())[k as int] != pat@[k as int]);
            return false;
        }
        k = k + 1;
    }
    assert(p@.subrange(start as int, start + pat.len()) =~= pat@);
    true
}

/// Whether `pat` occurs anywhere in `p`.
pub fn contains_exec(p: &[u8], pat: &[u8]) -> (r: bool)
    ensures
        r == contains(p@, pat@),
{
    if pat.len() > p.len() {
        return false;
    }
    if pat.len() == 0 {
        assert(p@.subrange(0, 0) =~= pat@);
        assert(occurs_at(p@, pat@, 0));
        return true;
    }
    let mut i: usize = 0;
    while i <= p.len() - pat.len()
        invariant
            1 <= pat.len() <= p.len(),
            i <= p.len(),
            forall|j: int| 0 <= j < i ==> !occurs_at(p@, pat@, j),
        decreases p.len() - i,
    {
        if occurs_at_exec(p, pat, i) {
            return true;
        }
        i = i + 1;
    }
    assert forall|j: int| !occurs_at(p@, pat@, j) by {
        if 0 <= j && j + pat@.len() <= p@.len() {
            assert(j < i);
        }
    }
    false
}

/// Whether `p` ends with `suffix`.
pub fn ends_with_exec(p: &[u8], suffix: &[u8]) -> (r: bool)
    ensures
        r == ends_with(p@, suffix@),
{
    if suffix.len() > p.len() {
        return false;
    }
    occurs_at_exec(p, suffix, p.len() - suffix.len())
}

/// Whether two byte strings are equal.
pub fn bytes_equal(a: &[u8], b: &[u8]) -> (r: bool)
    ensures
        r == (a@ == b@),
{
    if a.len() != b.len() {
        return false;
    }
    let r = occurs_at_exec(a, b, 0);
    assert(a@.subrange(0, b@.len() as int) =~= a@);
    r
}

/// Whether a payload read from the scale is a reading worth publishing.
/// This is a denylist: everything that is not known noise counts as a reading.
pub fn is_relevant_data(payload: &[u8]) -> (r: bool)
    ensures
        r == !is_noise(payload@),
{
    let ack = ack_frame_bytes();
    let status = status_echo_bytes();
    let enquiry = enquiry_echo_bytes();
    let zero = zero_frame_bytes();
    let suffix = settling_suffix_bytes();
    let header = banner_bytes();
    !(bytes_equal(payload, ack.as_slice()) || bytes_equal(payload, status.as_slice())
        || bytes_equal(payload, enquiry.as_slice()) || bytes_equal(payload, zero.as_slice())
        || ends_with_exec(payload, suffix.as_slice()) || contains_exec(payload, header.as_slice()))
}

/// The patterns that make up the noise set, each as a whole payload.
pub open spec fn is_noise_pattern(pat: Seq<u8>) -> bool {
    pat == ack_frame() || pat == status_echo_frame() || pat == enquiry_echo_frame()
        || pat == zero_frame() || pat == settling_suffix() || pat == banner()
}

/// `q` is `pat` with the byte at index `k` changed and every other byte kept.
pub open spec fn differs_at_one(q: Seq<u8>, pat: Seq<u8>, k: int) -> bool {
    q.len() == pat.len() && 0 <= k < q.len() && q[k] != pat[k] && forall|j: int|
        0 <= j < q.len() && j != k ==> q[j] == pat[j]
}

/// Every payload of the noise set is rejected: each known frame, the zero
/// frame, anything that ends with the settling artifact and anything that
/// holds the banner.
pub proof fn lemma_noise_rejected(p: Seq<u8>)
    requires
        is_noise_pattern(p) || ends_with(p, settling_suffix()) || contains(p, banner()),
    ensures
        is_noise(p),
{
    if p == settling_suffix() {
        assert(p.subrange(0, 6) =~= p);
    }
    if p == banner() {
        assert(p.subrange(0, 22) =~= p);
        assert(occurs_at(p, banner(), 0));
    }
}

/// A payload that differs from one of the noise patterns in exactly one byte
/// is accepted as a reading.
pub proof fn lemma_one_byte_off_accepted(q: Seq<u8>, pat: Seq<u8>, k: int)
    requires
        is_noise_pattern(pat),
        differs_at_one(q, pat, k),
    ensures
        !is_noise(q),
{
    assert(ack_frame().len() == 1);
    assert(status_echo_frame().len() == 4);
    assert(enquiry_echo_frame().len() == 4);
    assert(zero_frame().len() == 5);
    assert(settling_suffix().len() == 6);
    assert(banner().len() == 22);
    assert(q != pat);
    if q.len() == 4 {
        assert(status_echo_frame()[0] != enquiry_echo_frame()[0]);
        assert(status_echo_frame()[1] != enquiry_echo_frame()[1]);
        if q == status_echo_frame() && pat == enquiry_echo_frame() {
            let j: int = if k == 0 { 1 } else { 0 };
            assert(q[j] == pat[j]);
        }
        if q == enquiry_echo_frame() && pat == status_echo_frame() {
            let j: int = if k == 0 { 1 } else { 0 };
            assert(q[j] == pat[j]);
        }
    }
    if ends_with(q, settling_suffix()) {
        assert(q.len() >= 6);
        if q.len() == 6 {
            assert(q =~= q.subrange(0, 6));
        } else {
            assert(q.len() == 22);
            let j: int = if k == 16 { 17 } else { 16 };
            assert(q.subrange(16, 22)[j - 16] == settling_suffix()[j - 16]);
            assert(banner()[16] != settling_suffix()[0]);
            assert(banner()[17] != settling_suffix()[1]);
        }
    }
    if contains(q, banner()) {
        let i = choose|i: int| occurs_at(q, banner(), i);
        assert(i == 0);
        assert(q =~= q.subrange(0, 22));
    }
}

} // verus!

//! Enumerating every string of a fixed length over an alphabet, split among
//! workers by striding.
//!
//! A candidate is identified by its index in `[0, a^l)`. Written in base `a`
//! with the most significant digit first, the index gives the positions of the
//! candidate's symbols in the alphabet (an odometer). Worker `w` of `n` emits
//! the indices `w, w + n, w + 2n, ...` in increasing order.
use vstd::arithmetic::div_mod::lemma_fundamental_div_mod_converse;
use vstd::prelude::*;
use vstd::string::StringSliceAdditionalSpecFns;

verus! {

/// `a^l`: the number of strings of length `l` over `a` symbols.
pub open spec fn space_size(a: nat, l: nat) -> nat
    decreases l,
{
    if l == 0 {
        1
    } else {
        a * space_size(a, (l - 1) as nat)
    }
}

/// The number that the odometer digits `d` stand for in base `a`.
pub open spec fn odometer_value(d: Seq<usize>, a: nat) -> nat
    decreases d.len(),
{
    if d.len() == 0 {
        0
    } else {
        odometer_value(d.drop_last(), a) * a + d.last() as nat
    }
}

/// The `l` base-`a` digits of `x`, most significant first.
pub open spec fn digits_of(x: nat, a: nat, l: nat) -> Seq<usize>
    decreases l,
{
    if l == 0 {
        Seq::empty()
    } else {
        digits_of(x / a, a, (l - 1) as nat).push((x % a) as usize)
    }
}

/// Every digit is below `a`.
pub open spec fn digits_below(d: Seq<usize>, a: nat) -> bool {
    forall|i: int| 0 <= i < d.len() ==> #[trigger] d[i] < a
}

/// The symbols that the digits `d` select from `alphabet`.
pub open spec fn spell(alphabet: Seq<u8>, d: Seq<usize>) -> Seq<u8> {
    d.map_values(|i: usize| alphabet[i as int])
}

/// The candidate with index `x` among the strings of length `l`.
pub open spec fn candidate_at(alphabet: Seq<u8>, l: nat, x: nat) -> Seq<u8> {
    spell(alphabet, digits_of(x, alphabet.len(), l))
}

/// The index that worker `w` of `n` emits at its `k`-th step.
pub open spec fn stride_index(w: nat, n: nat, k: nat) -> nat {
    w + n * k
}

proof fn lemma_space_positive(a: nat, l: nat)
    requires
        a > 0,
    ensures
        space_size(a, l) > 0,
    decreases l,
{
    if l > 0 {
        lemma_space_positive(a, (l - 1) as nat);
        assert(a * space_size(a, (l - 1) as nat) > 0) by (nonlinear_arith)
            requires
                a > 0,
                space_size(a, (l - 1) as nat) > 0,
        ;
    }
}

proof fn lemma_value_concat(p: Seq<usize>, s: Seq<usize>, a: nat)
    ensures
        odometer_value(p + s, a) == odometer_value(p, a) * space_size(a, s.len())
            + odometer_value(s, a),
    decreases s.len(),
{
    if s.len() == 0 {
        assert(p + s =~= p);
        assert(space_size(a, 0) == 1);
        assert(odometer_value(s, a) == 0);
    } else {
        let s0 = s.drop_last();
        lemma_value_concat(p, s0, a);
        assert((p + s).drop_last() =~= p + s0);
        assert((p + s).last() == s.last());
        assert(odometer_value(p + s, a) == odometer_value(p + s0, a) * a + s.last() as nat);
        let vp = odometer_value(p, a);
        let v0 = odometer_value(s0, a);
        let k = space_size(a, s0.len());
        let x = s.last() as nat;
        assert(space_size(a, s.len()) == a * k);
        assert(odometer_value(s, a) == v0 * a + x);
        assert((vp * k + v0) * a + x == vp * (a * k) + (v0 * a + x)) by (nonlinear_arith);
    }
}

proof fn lemma_value_below_space(d: Seq<usize>, a: nat)
    requires
        digits_below(d, a),
    ensures
        odometer_value(d, a) < space_size(a, d.len()),
    decreases d.len(),
{
    if d.len() > 0 {
        let d0 = d.drop_last();
        assert(digits_below(d0, a)) by {
            assert forall|i: int| 0 <= i < d0.len() implies #[trigger] d0[i] < a by {
                assert(d0[i] == d[i]);
            }
        }
        lemma_value_below_space(d0, a);
        let v0 = odometer_value(d0, a);
        let k = space_size(a, d0.len());
        let x = d.last() as nat;
        assert(x < a);
        assert(v0 * a + x < a * k) by (nonlinear_arith)
            requires
                v0 < k,
                x < a,
        ;
    }
}

proof fn lemma_value_all_zero(d: Seq<usize>, a: nat)
    requires
        forall|i: int| 0 <= i < d.len() ==> #[trigger] d[i] == 0,
    ensures
        odometer_value(d, a) == 0,
    decreases d.len(),
{
    if d.len() > 0 {
        let d0 = d.drop_last();
        assert forall|i: int| 0 <= i < d0.len() implies #[trigger] d0[i] == 0 by {
            assert(d0[i] == d[i]);
        }
        lemma_value_all_zero(d0, a);
        assert(d[d.len() - 1] == 0);
        assert(odometer_value(d, a) == odometer_value(d0, a) * a + d.last() as nat);
        assert(0 * a == 0);
    }
}

proof fn lemma_value_all_top(d: Seq<usize>, a: nat)
    requires
        a > 0,
        forall|i: int| 0 <= i < d.len() ==> #[trigger] d[i] == a - 1,
    ensures
        odometer_value(d, a) + 1 == space_size(a, d.len()),
    decreases d.len(),
{
    if d.len() > 0 {
        let d0 = d.drop_last();
        assert forall|i: int| 0 <= i < d0.len() implies #[trigger] d0[i] == a - 1 by {
            assert(d0[i] == d[i]);
        }
        assert(d[d.len() - 1] == a - 1);
        lemma_value_all_top(d0, a);
        let k = space_size(a, d0.len());
        let v0 = odometer_value(d0, a);
        assert(v0 * a + (a - 1) + 1 == a * k) by (nonlinear_arith)
            requires
                v0 + 1 == k,
        ;
    }
}

/// Digits below `a` that stand for `x` are the digits of `x`.
proof fn lemma_digits_unique(d: Seq<usize>, a: nat)
    requires
        digits_below(d, a),
    ensures
        d == digits_of(odometer_value(d, a), a, d.len()),
    decreases d.len(),
{
    if d.len() > 0 {
        let d0 = d.drop_last();
        assert(digits_below(d0, a)) by {
            assert forall|i: int| 0 <= i < d0.len() implies #[trigger] d0[i] < a by {
                assert(d0[i] == d[i]);
            }
        }
        lemma_digits_unique(d0, a);
        let x = odometer_value(d, a);
        let v0 = odometer_value(d0, a);
        assert(d.last() < a);
        lemma_fundamental_div_mod_converse(x as int, a as int, v0 as int, d.last() as int);
        assert(d =~= d0.push(d.last()));
    }
}

/// The digits of `x < a^l` are below `a` and stand for `x`.
proof fn lemma_digits_of_value(x: nat, a: nat, l: nat)
    requires
        0 < a <= usize::MAX,
        x < space_size(a, l),
    ensures
        digits_of(x, a, l).len() == l,
        digits_below(digits_of(x, a, l), a),
        odometer_value(digits_of(x, a, l), a) == x,
    decreases l,
{
    if l > 0 {
        let q = x / a;
        let r = x % a;
        let k = space_size(a, (l - 1) as nat);
        assert(x == q * a + r && r < a) by (nonlinear_arith)
            requires
                a > 0,
                q == x / a,
                r == x % a,
        ;
        assert(q < k) by (nonlinear_arith)
            requires
                x == q * a + r,
                x < a * k,
                r >= 0,
                a > 0,
        ;
        lemma_digits_of_value(q, a, (l - 1) as nat);
        let d = digits_of(x, a, l);
        assert(d.drop_last() =~= digits_of(q, a, (l - 1) as nat));
        assert(d.last() == r as usize);
        assert(odometer_value(d, a) == odometer_value(d.drop_last(), a) * a + r);
        assert(digits_below(d, a)) by {
            assert forall|i: int| 0 <= i < d.len() implies #[trigger] d[i] < a by {
                if i < d.len() - 1 {
                    assert(d[i] == digits_of(q, a, (l - 1) as nat)[i]);
                }
            }
        }
    }
}

/// Advances the odometer `digits` (base `a`) by one; returns whether it
/// carried out of the most significant digit, in which case it wrapped to 0.
fn step(digits: &mut Vec<usize>, a: usize) -> (carry: bool)
    requires
        digits_below(old(digits)@, a as nat),
    ensures
        final(digits)@.len() == old(digits)@.len(),
        digits_below(final(digits)@, a as nat),
        odometer_value(old(digits)@, a as nat) + 1 < space_size(a as nat, old(digits)@.len())
            ==> !carry && odometer_value(final(digits)@, a as nat) == odometer_value(
            old(digits)@,
            a as nat,
        ) + 1,
        odometer_value(old(digits)@, a as nat) + 1 >= space_size(a as nat, old(digits)@.len())
            ==> carry && odometer_value(final(digits)@, a as nat) == 0,
{
    let ghost d0 = digits@;
    let ghost l = d0.len() as int;
    let ghost av = a as nat;
    let mut i: usize = digits.len();
    let mut carry = true;
    while i > 0
        invariant_except_break
            carry,
            forall|k: int| 0 <= k < i ==> #[trigger] digits@[k] == d0[k],
            forall|k: int| i <= k < l ==> #[trigger] digits@[k] == 0,
            forall|k: int| i <= k < l ==> #[trigger] d0[k] == a - 1,
        invariant
            i <= digits.len(),
            l == d0.len(),
            av == a as nat,
            digits@.len() == l,
            digits_below(digits@, av),
            digits_below(d0, av),
        ensures
            carry ==> forall|k: int| 0 <= k < l ==> #[trigger] digits@[k] == 0,
            carry ==> forall|k: int| 0 <= k < l ==> #[trigger] d0[k] == a - 1,
            !carry ==> odometer_value(digits@, av) == odometer_value(d0, av) + 1,
        decreases i,
    {
        i -= 1;
        let ghost ii = i as int;
        assert(ii < l);
        assert(digits@[ii] < av);
        assert(digits@[ii] == d0[ii]);
        let di = digits[i];
        assert(di == digits@[ii]);
        assert(di < a);
        if di + 1 < a {
            let ghost before = digits@;
            digits.set(i, di + 1);
            carry = false;
            proof {
                let x = d0[ii];
                let p = d0.subrange(0, ii);
                let tail_old = d0.subrange(ii + 1, l);
                let tail_new = digits@.subrange(ii + 1, l);
                assert(d0 =~= p.push(x) + tail_old);
                assert(digits@ =~= p.push((x + 1) as usize) + tail_new) by {
                    assert forall|k: int| 0 <= k < ii implies #[trigger] digits@[k] == p[k] by {
                        assert(before[k] == d0[k]);
                    }
                }
                assert(p.push(x).drop_last() =~= p);
                assert(p.push((x + 1) as usize).drop_last() =~= p);
                lemma_value_concat(p.push(x), tail_old, av);
                lemma_value_concat(p.push((x + 1) as usize), tail_new, av);
                assert forall|k: int| 0 <= k < tail_new.len() implies #[trigger] tail_new[k]
                    == 0 by {
                    assert(tail_new[k] == before[ii + 1 + k]);
                }
                assert forall|k: int| 0 <= k < tail_old.len() implies #[trigger] tail_old[k]
                    == a - 1 by {
                    assert(tail_old[k] == d0[ii + 1 + k]);
                }
                lemma_value_all_zero(tail_new, av);
                lemma_value_all_top(tail_old, av);
                let vp = odometer_value(p, av) * av + x;
                let sz = space_size(av, tail_old.len());
                assert(vp * sz + (sz - 1) + 1 == (vp + 1) * sz) by (nonlinear_arith);
                assert forall|k: int| 0 <= k < digits@.len() implies #[trigger] digits@[k] < av by {
                    if k != ii {
                        assert(digits@[k] == before[k]);
                    }
                }
            }
            break;
        } else {
            digits.set(i, 0);
        }
    }
    proof {
        if carry {
            if l > 0 {
                assert(d0[0] < av);
                lemma_value_all_top(d0, av);
            } else {
                assert(odometer_value(d0, av) == 0);
            }
            lemma_value_all_zero(digits@, av);
        } else {
            lemma_value_below_space(digits@, av);
        }
    }
    carry
}

/// The symbol classes that a keyspace alphabet is drawn from.
pub struct CharacterSet {
    pub lowercase: &'static str,
    pub uppercase: &'static str,
    pub numbers: &'static str,
    pub symbols: &'static str,
}

impl Default for CharacterSet {
    fn default() -> (r: Self)
        ensures
            r.lowercase@ == "abcdefghijklmnopqrstuvwxyz"@,
            r.uppercase@ == "ABCDEFGHIJKLMNOPQRSTUVWXYZ"@,
            r.numbers@ == "0123456789"@,
            r.symbols@ == "!@#$%^&*()_+-=[]{}|;:,.<>?"@,
    {
        CharacterSet {
            lowercase: "abcdefghijklmnopqrstuvwxyz",
            uppercase: "ABCDEFGHIJKLMNOPQRSTUVWXYZ",
            numbers: "0123456789",
            symbols: "!@#$%^&*()_+-=[]{}|;:,.<>?",
        }
    }
}

/// `s` with every repeated symbol after its first occurrence removed.
pub open spec fn dedup(s: Seq<u8>) -> Seq<u8>
    decreases s.len(),
{
    if s.len() == 0 {
        s
    } else if dedup(s.drop_last()).contains(s.last()) {
        dedup(s.drop_last())
    } else {
        dedup(s.drop_last()).push(s.last())
    }
}

/// The bytes of the enabled classes, in the order lowercase, uppercase,
/// digits, symbols.
pub open spec fn enabled_symbols(
    charset: &CharacterSet,
    use_lower: bool,
    use_upper: bool,
    use_numbers: bool,
    use_symbols: bool,
) -> Seq<u8> {
    (if use_lower {
        charset.lowercase.spec_bytes()
    } else {
        Seq::empty()
    }) + (if use_upper {
        charset.uppercase.spec_bytes()
    } else {
        Seq::empty()
    }) + (if use_numbers {
        charset.numbers.spec_bytes()
    } else {
        Seq::empty()
    }) + (if use_symbols {
        charset.symbols.spec_bytes()
    } else {
        Seq::empty()
    })
}

proof fn lemma_dedup_no_duplicates(s: Seq<u8>)
    ensures
        dedup(s).no_duplicates(),
    decreases s.len(),
{
    if s.len() > 0 {
        lemma_dedup_no_duplicates(s.drop_last());
        let d = dedup(s.drop_last());
        if !d.contains(s.last()) {
            let e = d.push(s.last());
            assert forall|i: int, j: int| 0 <= i < e.len() && 0 <= j < e.len() && i != j implies e[i]
                != e[j] by {
                if i == d.len() {
                    assert(d[j] == e[j]);
                } else if j == d.len() {
                    assert(d[i] == e[i]);
                }
            }
        }
    }
}

fn contains_byte(v: &Vec<u8>, b: u8) -> (r: bool)
    ensures
        r == v@.contains(b),
{
    let mut i: usize = 0;
    while i < v.len()
        invariant
            i <= v.len(),
            forall|k: int| 0 <= k < i ==> v@[k] != b,
        decreases v.len() - i,
    {
        if v[i] == b {
            return true;
        }
        i += 1;
    }
    false
}

/// Appends the bytes of `class` that `alphabet` does not hold yet.
fn push_class(alphabet: &mut Vec<u8>, class: &str, ghost_source: Ghost<Seq<u8>>)
    requires
        old(alphabet)@ == dedup(ghost_source@),
    ensures
        final(alphabet)@ == dedup(ghost_source@ + class.spec_bytes()),
{
    let bytes = class.as_bytes();
    let ghost src = ghost_source@;
    let mut i: usize = 0;
    while i < bytes.len()
        invariant
            i <= bytes.len(),
            bytes@ == class.spec_bytes(),
            alphabet@ == dedup(src + bytes@.subrange(0, i as int)),
        decreases bytes.len() - i,
    {
        let b = bytes[i];
        proof {
            let before = src + bytes@.subrange(0, i as int);
            assert((src + bytes@.subrange(0, i + 1)).drop_last() =~= before);
            assert((src + bytes@.subrange(0, i + 1)).last() == b);
        }
        if !contains_byte(alphabet, b) {
            alphabet.push(b);
        }
        i += 1;
    }
    assert(bytes@.subrange(0, bytes@.len() as int) =~= bytes@);
}


/// One worker's share of the keyspace: the strings of a fixed length over an
/// alphabet whose indices are `worker_id + k * worker_count`, in increasing
/// order, produced lazily.
pub struct Generator {
    charset: Vec<u8>,
    current: Vec<usize>,
    length: usize,
    done: bool,
    thread_id: usize,
    thread_count: usize,
    emitted: Ghost<nat>,
}

impl Generator {
    /// The alphabet, in odometer order.
    pub closed spec fn alphabet(&self) -> Seq<u8> {
        self.charset@
    }

    /// The length of every candidate.
    pub closed spec fn length(&self) -> nat {
        self.length as nat
    }

    pub closed spec fn worker_id(&self) -> nat {
        self.thread_id as nat
    }

    pub closed spec fn worker_count(&self) -> nat {
        self.thread_count as nat
    }

    /// How many candidates this generator has produced.
    pub closed spec fn emitted(&self) -> nat {
        self.emitted@
    }

    /// The index of the candidate that comes next.
    pub open spec fn next_index(&self) -> nat {
        stride_index(self.worker_id(), self.worker_count(), self.emitted())
    }

    /// The number of strings in the keyspace.
    pub open spec fn space(&self) -> nat {
        space_size(self.alphabet().len(), self.length())
    }

    /// No candidate is left.
    pub closed spec fn is_done(&self) -> bool {
        self.done
    }

    pub closed spec fn wf(&self) -> bool {
        &&& self.current@.len() == self.length
        &&& !self.done ==> digits_below(self.current@, self.charset@.len())
        &&& self.charset@.no_duplicates()
        &&& self.thread_count > 0
        &&& self.done <==> self.next_index() >= self.space()
        &&& !self.done ==> odometer_value(self.current@, self.charset@.len()) == self.next_index()
    }

    /// A generator for worker `thread_id` of `thread_count`, over the enabled
    /// classes of `charset` (repeated symbols kept once), for candidates of
    /// `length` symbols. It starts at index `thread_id`.
    #[allow(clippy::too_many_arguments)]
    pub fn new(
        charset: &CharacterSet,
        use_lower: bool,
        use_upper: bool,
        use_numbers: bool,
        use_symbols: bool,
        length: usize,
        thread_id: usize,
        thread_count: usize,
    ) -> (r: Self)
        requires
            thread_count > 0,
        ensures
            r.wf(),
            r.alphabet() == dedup(
                enabled_symbols(charset, use_lower, use_upper, use_numbers, use_symbols),
            ),
            r.length() == length,
            r.worker_id() == thread_id,
            r.worker_count() == thread_count,
            r.emitted() == 0,
            r.is_done() == (thread_id >= r.space()),
    {
        let mut chars: Vec<u8> = Vec::new();
        let ghost mut src: Seq<u8> = Seq::empty();
        assert(dedup(src) =~= Seq::<u8>::empty());
        if use_lower {
            push_class(&mut chars, charset.lowercase, Ghost(src));
            proof {
                src = src + charset.lowercase.spec_bytes();
            }
        }
        if use_upper {
            push_class(&mut chars, charset.uppercase, Ghost(src));
            proof {
                src = src + charset.uppercase.spec_bytes();
            }
        }
        if use_numbers {
            push_class(&mut chars, charset.numbers, Ghost(src));
            proof {
                src = src + charset.numbers.spec_bytes();
            }
        }
        if use_symbols {
            push_class(&mut chars, charset.symbols, Ghost(src));
            proof {
                src = src + charset.symbols.spec_bytes();
            }
        }
        proof {
            assert(src =~= enabled_symbols(
                charset,
                use_lower,
                use_upper,
                use_numbers,
                use_symbols,
            ));
            lemma_dedup_no_duplicates(src);
        }
        let a = chars.len();
        let mut current: Vec<usize> = Vec::new();
        let mut k: usize = 0;
        while k < length
            invariant
                k <= length,
                current@.len() == k,
                forall|j: int| 0 <= j < k ==> #[trigger] current@[j] == 0,
            decreases length - k,
        {
            current.push(0);
            k += 1;
        }
        let ghost space = space_size(a as nat, length as nat);
        proof {
            lemma_value_all_zero(current@, a as nat);
            if a > 0 {
                lemma_space_positive(a as nat, length as nat);
            } else if length > 0 {
                let rest = space_size(0, (length - 1) as nat);
                assert(space == 0 * rest);
                assert(0 * rest == 0) by (nonlinear_arith);
            } else {
                assert(space == 1);
            }
        }
        let mut done = a == 0 && length > 0;
        let mut j: usize = 0;
        while j < thread_id
            invariant
                j <= thread_id,
                a == chars@.len(),
                space == space_size(a as nat, length as nat),
                current@.len() == length,
                !done ==> digits_below(current@, a as nat),
                done <==> j >= space,
                !done ==> odometer_value(current@, a as nat) == j,
            decreases thread_id - j,
        {
            if !done {
                let carry = step(&mut current, a);
                if carry {
                    done = true;
                }
            }
            j += 1;
        }
        let g = Generator {
            charset: chars,
            current,
            length,
            done,
            thread_id,
            thread_count,
            emitted: Ghost(0),
        };
        assert(g.next_index() == thread_id) by {
            assert(thread_count * 0 == 0) by (nonlinear_arith);
        }
        g
    }

    /// Advances the odometer `indices` over `charset` by one position,
    /// wrapping to all zeros after the last string.
    pub fn advance_indices(indices: &mut Vec<usize>, charset: &[u8])
        requires
            digits_below(old(indices)@, charset@.len()),
        ensures
            final(indices)@.len() == old(indices)@.len(),
            digits_below(final(indices)@, charset@.len()),
            odometer_value(final(indices)@, charset@.len()) == (odometer_value(
                old(indices)@,
                charset@.len(),
            ) + 1) % space_size(charset@.len(), old(indices)@.len()),
    {
        proof {
            lemma_value_below_space(indices@, charset@.len());
        }
        let ghost v = odometer_value(indices@, charset@.len());
        let ghost sz = space_size(charset@.len(), indices@.len());
        step(indices, charset.len());
        proof {
            if v + 1 < sz {
                vstd::arithmetic::div_mod::lemma_small_mod((v + 1) as nat, sz);
            } else {
                vstd::arithmetic::div_mod::lemma_mod_self_0(sz as int);
            }
        }
    }

    /// The candidate that comes next.
    pub fn current_password(&self) -> (r: Vec<u8>)
        requires
            self.wf(),
            !self.is_done(),
        ensures
            r@ == candidate_at(self.alphabet(), self.length(), self.next_index()),
    {
        let mut r: Vec<u8> = Vec::new();
        let mut i: usize = 0;
        while i < self.current.len()
            invariant
                i <= self.current@.len(),
                digits_below(self.current@, self.charset@.len()),
                r@ =~= spell(self.charset@, self.current@.subrange(0, i as int)),
            decreases self.current.len() - i,
        {
            let d = self.current[i];
            assert(d < self.charset@.len());
            r.push(self.charset[d]);
            i += 1;
        }
        proof {
            assert(self.current@.subrange(0, self.current@.len() as int) =~= self.current@);
            lemma_digits_unique(self.current@, self.charset@.len());
        }
        r
    }

    /// Produces the next candidate of this worker and skips the
    /// `worker_count - 1` candidates that belong to the other workers; `None`
    /// once the keyspace is exhausted.
    pub fn next(&mut self) -> (r: Option<Vec<u8>>)
        requires
            old(self).wf(),
        ensures
            final(self).wf(),
            final(self).alphabet() == old(self).alphabet(),
            final(self).length() == old(self).length(),
            final(self).worker_id() == old(self).worker_id(),
            final(self).worker_count() == old(self).worker_count(),
            old(self).is_done() ==> r is None && final(self).emitted() == old(self).emitted(),
            !old(self).is_done() ==> r is Some && r->0@ == candidate_at(
                old(self).alphabet(),
                old(self).length(),
                old(self).next_index(),
            ) && final(self).emitted() == old(self).emitted() + 1,
    {
        if self.done {
            return None;
        }
        let result = self.current_password();
        let ghost idx = self.next_index();
        let ghost space = self.space();
        let ghost s0 = *self;
        let a = self.charset.len();
        let n = self.thread_count;
        let mut j: usize = 0;
        while j < n
            invariant_except_break
                !self.done,
                odometer_value(self.current@, a as nat) == idx + j,
                idx + j < space,
            invariant
                j <= n,
                n == self.thread_count,
                a == self.charset@.len(),
                self.charset@ == s0.charset@,
                self.length == s0.length,
                self.thread_id == s0.thread_id,
                self.thread_count == s0.thread_count,
                self.emitted == s0.emitted,
                space == space_size(a as nat, self.length as nat),
                self.current@.len() == self.length,
                digits_below(self.current@, a as nat),
            ensures
                digits_below(self.current@, a as nat),
                self.current@.len() == self.length,
                self.done ==> idx + n >= space,
                !self.done ==> odometer_value(self.current@, a as nat) == idx + n && idx + n
                    < space,
            decreases n - j,
        {
            let carry = step(&mut self.current, a);
            if carry {
                self.done = true;
                break;
            }
            j += 1;
        }
        self.emitted = Ghost(self.emitted@ + 1);
        assert(self.next_index() == idx + n) by {
            assert(n * (self.emitted@ - 1) + n == n * self.emitted@) by (nonlinear_arith);
        }
        Some(result)
    }
}

impl Generator {
    /// A generator is done exactly when its next index lies past the
    /// keyspace; until then it has emitted fewer candidates than the keyspace
    /// holds.
    pub proof fn lemma_done_iff_past_end(&self)
        requires
            self.wf(),
        ensures
            self.is_done() <==> self.next_index() >= self.space(),
            self.worker_count() > 0,
            !self.is_done() ==> self.emitted() < self.space(),
    {
        assert(self.emitted() <= self.next_index()) by (nonlinear_arith)
            requires
                self.worker_count() > 0,
                self.next_index() == self.worker_id() + self.worker_count() * self.emitted(),
        ;
    }
}

/// Every symbol of `s` occurs in `alphabet`.
pub open spec fn over_alphabet(alphabet: Seq<u8>, s: Seq<u8>) -> bool {
    forall|i: int| 0 <= i < s.len() ==> alphabet.contains(#[trigger] s[i])
}

/// The index of the string `s` in the keyspace over `alphabet`.
pub open spec fn index_of_candidate(alphabet: Seq<u8>, s: Seq<u8>) -> nat {
    odometer_value(s.map_values(|c: u8| alphabet.index_of(c) as usize), alphabet.len())
}

proof fn lemma_spell_injective(alphabet: Seq<u8>, d1: Seq<usize>, d2: Seq<usize>)
    requires
        alphabet.no_duplicates(),
        d1.len() == d2.len(),
        digits_below(d1, alphabet.len()),
        digits_below(d2, alphabet.len()),
        spell(alphabet, d1) == spell(alphabet, d2),
    ensures
        d1 == d2,
{
    assert forall|i: int| 0 <= i < d1.len() implies d1[i] == d2[i] by {
        assert(spell(alphabet, d1).len() == d1.len());
        assert(spell(alphabet, d1)[i] == alphabet[d1[i] as int]);
        assert(spell(alphabet, d2)[i] == alphabet[d2[i] as int]);
        assert(spell(alphabet, d1)[i] == spell(alphabet, d2)[i]);
        assert(d1[i] < alphabet.len() && d2[i] < alphabet.len());
        assert(alphabet[d1[i] as int] == alphabet[d2[i] as int]);
    }
    assert(d1 =~= d2);
}

/// Keyspace partition: with `n` workers striding over the strings of length
/// `l` over an alphabet without repeated symbols, every such string is
/// emitted, by worker `x % n` at its step `x / n` where `x` is the string's
/// index, and no string is emitted twice, neither by two workers nor by one
/// worker at two steps.
pub proof fn lemma_keyspace_partition(alphabet: Seq<u8>, l: nat, n: nat)
    requires
        n > 0,
        alphabet.no_duplicates(),
        alphabet.len() <= usize::MAX,
    ensures
        forall|s: Seq<u8>|
            s.len() == l && over_alphabet(alphabet, s) ==> {
                let x = #[trigger] index_of_candidate(alphabet, s);
                &&& x < space_size(alphabet.len(), l)
                &&& x % n < n
                &&& stride_index(x % n, n, x / n) == x
                &&& candidate_at(alphabet, l, stride_index(x % n, n, x / n)) == s
            },
        forall|w1: nat, k1: nat, w2: nat, k2: nat|
            w1 < n && w2 < n && stride_index(w1, n, k1) < space_size(alphabet.len(), l)
                && stride_index(w2, n, k2) < space_size(alphabet.len(), l) && #[trigger] candidate_at(
                alphabet,
                l,
                stride_index(w1, n, k1),
            ) == #[trigger] candidate_at(alphabet, l, stride_index(w2, n, k2)) ==> w1 == w2 && k1
                == k2,
{
    let a = alphabet.len();
    assert forall|s: Seq<u8>| s.len() == l && over_alphabet(alphabet, s) implies {
        let x = #[trigger] index_of_candidate(alphabet, s);
        &&& x < space_size(a, l)
        &&& x % n < n
        &&& stride_index(x % n, n, x / n) == x
        &&& candidate_at(alphabet, l, stride_index(x % n, n, x / n)) == s
    } by {
        let d = s.map_values(|c: u8| alphabet.index_of(c) as usize);
        assert forall|i: int| 0 <= i < d.len() implies #[trigger] d[i] < a && alphabet[d[i] as int]
            == s[i] by {
            assert(alphabet.contains(s[i]));
            alphabet.index_of_first_ensures(s[i]);
        }
        let x = odometer_value(d, a);
        lemma_value_below_space(d, a);
        lemma_digits_unique(d, a);
        assert(spell(alphabet, d) =~= s);
        vstd::arithmetic::div_mod::lemma_fundamental_div_mod(x as int, n as int);
        assert(stride_index(x % n, n, x / n) == x) by {
            assert(n * (x / n) == (x / n) * n) by (nonlinear_arith);
        }
    }
    assert forall|w1: nat, k1: nat, w2: nat, k2: nat|
        w1 < n && w2 < n && stride_index(w1, n, k1) < space_size(a, l) && stride_index(w2, n, k2)
            < space_size(a, l) && #[trigger] candidate_at(alphabet, l, stride_index(w1, n, k1))
            == #[trigger] candidate_at(alphabet, l, stride_index(w2, n, k2)) implies w1 == w2 && k1
        == k2 by {
        let x1 = stride_index(w1, n, k1);
        let x2 = stride_index(w2, n, k2);
        if a == 0 {
            if l > 0 {
                let rest = space_size(0, (l - 1) as nat);
                assert(0 * rest == 0) by (nonlinear_arith);
            }
            assert(x1 == 0 && x2 == 0);
        } else {
            lemma_digits_of_value(x1, a, l);
            lemma_digits_of_value(x2, a, l);
            lemma_spell_injective(alphabet, digits_of(x1, a, l), digits_of(x2, a, l));
        }
        assert(x1 == x2);
        assert(x1 == k1 * n + w1 && x2 == k2 * n + w2) by (nonlinear_arith)
            requires
                x1 == w1 + n * k1,
                x2 == w2 + n * k2,
        ;
        lemma_fundamental_div_mod_converse(x1 as int, n as int, k1 as int, w1 as int);
        lemma_fundamental_div_mod_converse(x2 as int, n as int, k2 as int, w2 as int);
    }
}

} // verus!

//! The order in which prime methods are tried: the default order, changed
//! by a comma-separated list of method names in which a name comes first
//! and a name with a leading `-` is left out.

use vstd::prelude::*;
use super::PrimeMethod;
use super::spec_all_prime_methods;
use super::spec_prime_method_name;

verus! {

broadcast use vstd::seq_lib::group_seq_properties;

/// Whether the character has the Unicode `White_Space` property, which is
/// what `char::is_whitespace` tests: tab to carriage return, space, next
/// line, no-break space, Ogham space mark, the spaces from en quad to hair
/// space, line and paragraph separator, narrow no-break space, medium
/// mathematical space and ideographic space.
pub open spec fn unicode_whitespace(c: char) -> bool {
    let u = c as u32;
    ||| 0x09 <= u <= 0x0d
    ||| u == 0x20
    ||| u == 0x85
    ||| u == 0xa0
    ||| u == 0x1680
    ||| 0x2000 <= u <= 0x200a
    ||| u == 0x2028
    ||| u == 0x2029
    ||| u == 0x202f
    ||| u == 0x205f
    ||| u == 0x3000
}

/// Whether the character has the Unicode `White_Space` property, as
/// `char::is_whitespace` tells.
fn is_whitespace(c: char) -> (r: bool)
    ensures
        r == unicode_whitespace(c),
{
    let u = c as u32;
    (0x09 <= u && u <= 0x0d) || u == 0x20 || u == 0x85 || u == 0xa0 || u == 0x1680 || (0x2000 <= u && u <= 0x200a)
        || u == 0x2028 || u == 0x2029 || u == 0x202f || u == 0x205f || u == 0x3000
}

/// The characters of a string.
pub fn str_chars(s: &str) -> (r: Vec<char>)
    ensures
        r@ == s@,
{
    let mut v: Vec<char> = Vec::new();
    for c in it: s.chars()
        invariant
            v@ == it.seq().take(it.index()),
    {
        v.push(c);
        assert(v@ =~= it.seq().take(it.index() + 1));
    }
    v
}

/// The fields of a string separated by commas; an empty string is one
/// empty field.
pub open spec fn spec_split(s: Seq<char>) -> Seq<Seq<char>>
    decreases s.len(),
{
    if s.len() == 0 {
        seq![Seq::empty()]
    } else {
        let p = spec_split(s.drop_last());
        if s.last() == ',' {
            p.push(Seq::empty())
        } else {
            p.update(p.len() - 1, p.last().push(s.last()))
        }
    }
}

/// The string without its leading whitespace.
pub open spec fn spec_trim_start(s: Seq<char>) -> Seq<char>
    decreases s.len(),
{
    if s.len() > 0 && unicode_whitespace(s[0]) {
        spec_trim_start(s.drop_first())
    } else {
        s
    }
}

/// The string without its trailing whitespace.
pub open spec fn spec_trim_end(s: Seq<char>) -> Seq<char>
    decreases s.len(),
{
    if s.len() > 0 && unicode_whitespace(s.last()) {
        spec_trim_end(s.drop_last())
    } else {
        s
    }
}

/// The string without leading and trailing whitespace.
pub open spec fn spec_trim(s: Seq<char>) -> Seq<char> {
    spec_trim_end(spec_trim_start(s))
}

/// The first method, in the default order, with the given name.
pub open spec fn spec_method_named(name: Seq<char>) -> Option<PrimeMethod> {
    if name == spec_prime_method_name(PrimeMethod::DirectPull) {
        Some(PrimeMethod::DirectPull)
    } else if name == spec_prime_method_name(PrimeMethod::Sampling) {
        Some(PrimeMethod::Sampling)
    } else if name == spec_prime_method_name(PrimeMethod::IndirectPull) {
        Some(PrimeMethod::IndirectPull)
    } else if name == spec_prime_method_name(PrimeMethod::Udmabuf) {
        Some(PrimeMethod::Udmabuf)
    } else if name == spec_prime_method_name(PrimeMethod::DirectPush) {
        Some(PrimeMethod::DirectPush)
    } else {
        None
    }
}

/// What one field asks for: a method, and whether it is allowed (no
/// leading `-`); nothing for a blank field or an unknown name.
pub open spec fn spec_directive(field: Seq<char>) -> Option<(PrimeMethod, bool)> {
    let t = spec_trim(field);
    if t.len() == 0 {
        None
    } else {
        let allow = t[0] != '-';
        let name = if allow { t } else { t.drop_first() };
        match spec_method_named(name) {
            Some(m) => Some((m, allow)),
            None => None,
        }
    }
}

/// What the fields ask for, in order.
pub open spec fn spec_directives(fields: Seq<Seq<char>>) -> Seq<(PrimeMethod, bool)>
    decreases fields.len(),
{
    if fields.len() == 0 {
        Seq::empty()
    } else {
        let d = spec_directives(fields.drop_last());
        match spec_directive(fields.last()) {
            Some(x) => d.push(x),
            None => d,
        }
    }
}

/// Applies requests in order: the first request for a method decides
/// whether it is tried, at the place of that request; later ones are
/// ignored. The result is the methods seen and the methods to try.
pub open spec fn spec_apply(ds: Seq<(PrimeMethod, bool)>) -> (Seq<PrimeMethod>, Seq<PrimeMethod>)
    decreases ds.len(),
{
    if ds.len() == 0 {
        (Seq::empty(), Seq::empty())
    } else {
        let (seen, res) = spec_apply(ds.drop_last());
        let (m, allow) = ds.last();
        if seen.contains(m) {
            (seen, res)
        } else {
            (seen.push(m), if allow { res.push(m) } else { res })
        }
    }
}

/// Requests that allow each method, in the default order.
pub open spec fn spec_default_requests() -> Seq<(PrimeMethod, bool)> {
    spec_all_prime_methods().map_values(|m: PrimeMethod| (m, true))
}

/// The requests of the variable's value, if it is set.
pub open spec fn spec_var_requests(var: Option<Seq<char>>) -> Seq<(PrimeMethod, bool)> {
    match var {
        Some(v) => spec_directives(spec_split(v)),
        None => Seq::empty(),
    }
}

/// The prime methods to try, in order, for the value of the variable that
/// configures them.
pub open spec fn spec_prime_methods(var: Option<Seq<char>>) -> Seq<PrimeMethod> {
    spec_apply(spec_var_requests(var) + spec_default_requests()).1
}

/// The state of applying requests.
struct Applier {
    seen: Vec<PrimeMethod>,
    res: Vec<PrimeMethod>,
}

impl Applier {
    fn apply(&mut self, method: PrimeMethod, allow: bool, Ghost(ds): Ghost<Seq<(PrimeMethod, bool)>>)
        requires
            (old(self).seen@, old(self).res@) == spec_apply(ds),
        ensures
            (final(self).seen@, final(self).res@) == spec_apply(ds.push((method, allow))),
    {
        assert(ds.push((method, allow)).drop_last() =~= ds);
        let mut i: usize = 0;
        while i < self.seen.len()
            invariant
                i <= self.seen@.len(),
                (self.seen@, self.res@) == spec_apply(ds),
                ds.push((method, allow)).drop_last() == ds,
                forall|j: int| 0 <= j < i ==> self.seen@[j] != method,
            decreases self.seen@.len() - i,
        {
            if self.seen[i] == method {
                assert(self.seen@[i as int] == method);
                return;
            }
            i += 1;
        }
        self.seen.push(method);
        if allow {
            self.res.push(method);
        }
    }
}

/// Whether the characters equal the string's.
fn chars_eq(a: &[char], b: &str) -> (r: bool)
    ensures
        r == (a@ == b@),
{
    let bc = str_chars(b);
    if a.len() != bc.len() {
        return false;
    }
    let mut i: usize = 0;
    while i < a.len()
        invariant
            i <= a@.len(),
            a@.len() == bc@.len(),
            bc@ == b@,
            forall|j: int| 0 <= j < i ==> a@[j] == bc@[j],
        decreases a@.len() - i,
    {
        if a[i] != bc[i] {
            return false;
        }
        i += 1;
    }
    assert(a@ =~= bc@);
    true
}

/// The method with the given name, if any.
fn method_named(name: &[char]) -> (r: Option<PrimeMethod>)
    ensures
        r == spec_method_named(name@),
{
    let variants = PrimeMethod::variants();
    let mut i: usize = 0;
    while i < variants.len()
        invariant
            i <= 5,
            variants@ == spec_all_prime_methods(),
            forall|j: int| 0 <= j < i ==> name@ != spec_prime_method_name(#[trigger] variants@[j]),
        decreases 5 - i,
    {
        let m = variants[i];
        if chars_eq(name, m.name()) {
            return Some(m);
        }
        i += 1;
    }
    None
}

/// Parses one field.
fn directive(field: &Vec<char>) -> (r: Option<(PrimeMethod, bool)>)
    ensures
        r == spec_directive(field@),
{
    let n = field.len();
    let mut lo: usize = 0;
    assert(field@.subrange(0, n as int) =~= field@);
    while lo < n && is_whitespace(field[lo])
        invariant
            lo <= n == field@.len(),
            spec_trim_start(field@) == spec_trim_start(field@.subrange(lo as int, n as int)),
        decreases n - lo,
    {
        proof {
            let s = field@.subrange(lo as int, n as int);
            assert(s.drop_first() =~= field@.subrange(lo + 1, n as int));
        }
        lo += 1;
    }
    proof {
        let s = field@.subrange(lo as int, n as int);
        assert(spec_trim_start(s) == s);
    }
    let mut hi: usize = n;
    while hi > lo && is_whitespace(field[hi - 1])
        invariant
            lo <= hi <= n == field@.len(),
            spec_trim(field@) == spec_trim_end(field@.subrange(lo as int, hi as int)),
        decreases hi - lo,
    {
        proof {
            let s = field@.subrange(lo as int, hi as int);
            assert(s.drop_last() =~= field@.subrange(lo as int, hi - 1));
        }
        hi -= 1;
    }
    let ghost t = field@.subrange(lo as int, hi as int);
    assert(spec_trim_end(t) == t);
    if lo == hi {
        return None;
    }
    let allow = field[lo] != '-';
    let start = if allow { lo } else { lo + 1 };
    let mut name: Vec<char> = Vec::new();
    let mut i: usize = start;
    while i < hi
        invariant
            start <= i <= hi <= field@.len(),
            name@ == field@.subrange(start as int, i as int),
        decreases hi - i,
    {
        name.push(field[i]);
        i += 1;
        assert(name@ =~= field@.subrange(start as int, i as int));
    }
    proof {
        if !allow {
            assert(t.drop_first() =~= name@);
        } else {
            assert(t =~= name@);
        }
    }
    match method_named(name.as_slice()) {
        Some(m) => Some((m, allow)),
        None => None,
    }
}

/// The prime methods to try, in order, for the value of the variable that
/// configures them (none where it is not set): the methods the value names
/// come first, in the order named; a method named with a leading `-` is
/// left out; the first naming of a method counts; blank fields and unknown
/// names are skipped; the methods not named follow in the default order.
pub fn prime_methods(var: Option<&str>) -> (r: Vec<PrimeMethod>)
    ensures
        r@ == spec_prime_methods(
            match var {
                Some(v) => Some(v@),
                None => None,
            },
        ),
{
    let mut a = Applier { seen: Vec::new(), res: Vec::new() };
    let ghost mut ds: Seq<(PrimeMethod, bool)> = Seq::empty();
    match var {
        Some(v) => {
            let chars = str_chars(v);
            let mut field: Vec<char> = Vec::new();
            let ghost mut done: Seq<Seq<char>> = Seq::empty();
            let mut i: usize = 0;
            while i < chars.len()
                invariant
                    i <= chars@.len(),
                    chars@ == v@,
                    spec_split(chars@.take(i as int)) == done.push(field@),
                    ds == spec_directives(done),
                    (a.seen@, a.res@) == spec_apply(ds),
                decreases chars@.len() - i,
            {
                let c = chars[i];
                proof {
                    assert(chars@.take(i + 1).drop_last() =~= chars@.take(i as int));
                    assert(chars@.take(i + 1).last() == c);
                }
                if c == ',' {
                    let d = directive(&field);
                    proof {
                        assert(done.push(field@).drop_last() =~= done);
                    }
                    match d {
                        Some((m, allow)) => {
                            a.apply(m, allow, Ghost(ds));
                            proof {
                                ds = ds.push((m, allow));
                            }
                        },
                        None => {},
                    }
                    proof {
                        done = done.push(field@);
                    }
                    field = Vec::new();
                    proof {
                        assert(spec_split(chars@.take(i + 1)) =~= done.push(field@));
                    }
                } else {
                    field.push(c);
                    proof {
                        let p = spec_split(chars@.take(i as int));
                        assert(p.update(p.len() - 1, p.last().push(c)) =~= done.push(field@));
                    }
                }
                i += 1;
            }
            assert(chars@.take(chars@.len() as int) =~= chars@);
            let d = directive(&field);
            proof {
                assert(done.push(field@).drop_last() =~= done);
            }
            match d {
                Some((m, allow)) => {
                    a.apply(m, allow, Ghost(ds));
                    proof {
                        ds = ds.push((m, allow));
                    }
                },
                None => {},
            }
            assert(ds == spec_var_requests(Some(v@)));
        },
        None => {},
    }
    let ghost vr = ds;
    let variants = PrimeMethod::variants();
    let mut i: usize = 0;
    while i < variants.len()
        invariant
            i <= variants@.len(),
            variants@ == spec_all_prime_methods(),
            ds == vr + spec_default_requests().take(i as int),
            (a.seen@, a.res@) == spec_apply(ds),
        decreases variants@.len() - i,
    {
        a.apply(variants[i], true, Ghost(ds));
        proof {
            ds = ds.push((variants@[i as int], true));
            assert(ds =~= vr + spec_default_requests().take(i + 1));
        }
        i += 1;
    }
    assert(spec_default_requests().take(5) =~= spec_default_requests());
    a.res
}

/// Whether the first request for the method in `ds` allows it; none where
/// no request names it.
pub open spec fn spec_first_request(ds: Seq<(PrimeMethod, bool)>, m: PrimeMethod) -> Option<bool>
    decreases ds.len(),
{
    if ds.len() == 0 {
        None
    } else {
        match spec_first_request(ds.drop_last(), m) {
            Some(a) => Some(a),
            None => if ds.last().0 == m {
                Some(ds.last().1)
            } else {
                None
            },
        }
    }
}

proof fn lemma_apply_invariant(ds: Seq<(PrimeMethod, bool)>)
    ensures
        spec_apply(ds).0.no_duplicates(),
        spec_apply(ds).1.no_duplicates(),
        forall|m: PrimeMethod| #[trigger] spec_apply(ds).0.contains(m) <==> spec_first_request(ds, m) is Some,
        forall|m: PrimeMethod| #[trigger] spec_apply(ds).1.contains(m) <==> spec_first_request(ds, m) == Some(true),
    decreases ds.len(),
{
    if ds.len() > 0 {
        lemma_apply_invariant(ds.drop_last());
        let (seen, res) = spec_apply(ds.drop_last());
        let (m, allow) = ds.last();
        if !seen.contains(m) {
            assert(!res.contains(m));
            assert forall|i: int, j: int| 0 <= i < j < seen.push(m).len() implies seen.push(m)[i] != seen.push(m)[j] by {
                if j == seen.len() {
                    assert(seen.contains(seen[i]));
                }
            }
            assert forall|i: int, j: int| 0 <= i < j < res.push(m).len() implies res.push(m)[i] != res.push(m)[j] by {
                if j == res.len() {
                    assert(res.contains(res[i]));
                }
            }
        }
    }
}

proof fn lemma_first_request_concat(a: Seq<(PrimeMethod, bool)>, b: Seq<(PrimeMethod, bool)>, m: PrimeMethod)
    ensures
        spec_first_request(a + b, m) == (match spec_first_request(a, m) {
            Some(x) => Some(x),
            None => spec_first_request(b, m),
        }),
    decreases b.len(),
{
    if b.len() == 0 {
        assert(a + b =~= a);
    } else {
        lemma_first_request_concat(a, b.drop_last(), m);
        assert((a + b).drop_last() =~= a + b.drop_last());
    }
}

proof fn lemma_default_requests_allow(m: PrimeMethod)
    ensures
        spec_first_request(spec_default_requests(), m) == Some(true),
{
    let d = spec_default_requests();
    assert(d.len() == 5);
    reveal_with_fuel(spec_first_request, 6);
    assert(d.drop_last().drop_last().drop_last().drop_last().drop_last() =~= Seq::<(PrimeMethod, bool)>::empty());
}

/// Proves that no prime method is tried twice.
pub proof fn lemma_prime_methods_no_duplicates(var: Option<Seq<char>>)
    ensures
        spec_prime_methods(var).no_duplicates(),
{
    lemma_apply_invariant(spec_var_requests(var) + spec_default_requests());
}

/// Proves that a prime method is tried exactly where the variable does not
/// name it, or the first time it names it, it names it without a leading
/// `-`.
pub proof fn lemma_prime_methods_contains(var: Option<Seq<char>>, m: PrimeMethod)
    ensures
        spec_prime_methods(var).contains(m) <==> spec_first_request(spec_var_requests(var), m) != Some(false),
{
    let ds = spec_var_requests(var) + spec_default_requests();
    lemma_apply_invariant(ds);
    lemma_first_request_concat(spec_var_requests(var), spec_default_requests(), m);
    lemma_default_requests_allow(m);
}

/// Proves that without the variable all prime methods are tried in the
/// default order.
pub proof fn lemma_prime_methods_default()
    ensures
        spec_prime_methods(None) == spec_all_prime_methods(),
{
    let d = spec_default_requests();
    assert(Seq::<(PrimeMethod, bool)>::empty() + d =~= d);
    reveal_with_fuel(spec_apply, 6);
    assert(d.drop_last().drop_last().drop_last().drop_last().drop_last() =~= Seq::<(PrimeMethod, bool)>::empty());
    assert(spec_apply(d).1 =~= spec_all_prime_methods());
}

} // verus!

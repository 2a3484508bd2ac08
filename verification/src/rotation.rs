//! Rotation order information.
//!
//! A rotation-specification token such as `"r3(yaw)"` or `"-r1(roll)"` names
//! an elementary rotation axis (1 = X, 2 = Y, 3 = Z), an optional negation
//! sign, and the angle (roll, pitch or yaw) that drives the rotation. Three
//! tokens make a [`RotationOrder`], the composition order of the three
//! elementary rotations.

use vstd::prelude::*;

use crate::error::Error;
use crate::text::chars_of;

verus! {

/// The elementary axis a rotation token names: R1 = X, R2 = Y, R3 = Z.
#[derive(Clone, Copy, Debug, PartialEq, Eq, Structural)]
pub enum RotationMatrixType {
    R1,
    R2,
    R3,
}

/// The angle selector of a rotation token.
#[derive(Clone, Copy, Debug, PartialEq, Eq, Structural)]
pub enum RotationMatrixAngle {
    Roll,
    Pitch,
    Yaw,
}

/// One parsed rotation-specification token.
#[derive(Clone, Copy, Debug, PartialEq, Eq, Structural)]
pub struct RotationMatrix {
    /// The elementary axis to rotate about.
    pub type_: RotationMatrixType,
    /// Whether the rotation angle is negated.
    pub negative: bool,
    /// Which of the three attitude angles drives the rotation.
    pub angle: RotationMatrixAngle,
}

/// Three parsed rotation tokens; the composite rotation is
/// `first * second * third`, in exactly this order.
#[derive(Clone, Copy, Debug, PartialEq, Eq, Structural)]
pub struct RotationOrder {
    /// The leftmost factor of the composition.
    pub first: RotationMatrix,
    /// The middle factor of the composition.
    pub second: RotationMatrix,
    /// The rightmost factor of the composition.
    pub third: RotationMatrix,
}

/// What axis an axis part (e.g. `r1`, `R3`, `2`) names, if any.
pub open spec fn spec_axis_of(p: Seq<char>) -> Option<RotationMatrixType> {
    if p.len() == 1 {
        if p[0] == '1' {
            Some(RotationMatrixType::R1)
        } else if p[0] == '2' {
            Some(RotationMatrixType::R2)
        } else if p[0] == '3' {
            Some(RotationMatrixType::R3)
        } else {
            None
        }
    } else if p.len() == 2 {
        if p[0] == 'r' || p[0] == 'R' {
            if p[1] == '1' {
                Some(RotationMatrixType::R1)
            } else if p[1] == '2' {
                Some(RotationMatrixType::R2)
            } else if p[1] == '3' {
                Some(RotationMatrixType::R3)
            } else {
                None
            }
        } else {
            None
        }
    } else {
        None
    }
}

/// What angle an angle name (`roll`, `pitch` or `yaw`) selects, if any.
pub open spec fn spec_angle_of(p: Seq<char>) -> Option<RotationMatrixAngle> {
    if p.len() == 4 && p[0] == 'r' && p[1] == 'o' && p[2] == 'l' && p[3] == 'l' {
        Some(RotationMatrixAngle::Roll)
    } else if p.len() == 5 && p[0] == 'p' && p[1] == 'i' && p[2] == 't' && p[3] == 'c' && p[4]
        == 'h' {
        Some(RotationMatrixAngle::Pitch)
    } else if p.len() == 3 && p[0] == 'y' && p[1] == 'a' && p[2] == 'w' {
        Some(RotationMatrixAngle::Yaw)
    } else {
        None
    }
}

/// `k` is the position of the one and only `'('` in `t`.
pub open spec fn only_paren_at(t: Seq<char>, k: int) -> bool {
    &&& 0 <= k < t.len()
    &&& t[k] == '('
    &&& forall|j: int| 0 <= j < t.len() && j != k ==> t[j] != '('
}

/// `l` is the length of the run of `'-'` at the start of `s`.
pub open spec fn dash_run(s: Seq<char>, l: int) -> bool {
    &&& 0 <= l <= s.len()
    &&& forall|i: int| 0 <= i < l ==> s[i] == '-'
    &&& l < s.len() ==> s[l] != '-'
}

/// `r` is the length of the run of `')'` at the end of `s`.
pub open spec fn rparen_tail(s: Seq<char>, r: int) -> bool {
    &&& 0 <= r <= s.len()
    &&& forall|i: int| s.len() - r <= i < s.len() ==> s[i] == ')'
    &&& r < s.len() ==> s[s.len() - r - 1] != ')'
}

/// The axis part proper: what stands before the `'('`, with one optional
/// leading negation sign stripped.
pub open spec fn axis_core(before: Seq<char>) -> Seq<char> {
    if before.len() > 0 && before[0] == '-' {
        before.subrange(1, before.len() as int)
    } else {
        before
    }
}

/// A full decomposition of a rotation token: `k` locates the unique `'('`,
/// and within the part after it, `l` counts leading negation signs and `r`
/// trailing closing parentheses; what remains must be an angle name, and the
/// part before the `'('` (minus an optional sign) must be an axis name.
pub open spec fn token_parts_valid(t: Seq<char>, k: int, l: int, r: int) -> bool {
    let before = t.subrange(0, k);
    let after = t.subrange(k + 1, t.len() as int);
    &&& only_paren_at(t, k)
    &&& after.len() > 0
    &&& after[after.len() - 1] == ')'
    &&& dash_run(after, l)
    &&& rparen_tail(after, r)
    &&& l <= after.len() - r
    &&& spec_axis_of(axis_core(before)) is Some
    &&& spec_angle_of(after.subrange(l, after.len() - r)) is Some
}

/// Whether `t` is a well-formed rotation-specification token.
pub open spec fn token_valid(t: Seq<char>) -> bool {
    exists|k: int, l: int, r: int| token_parts_valid(t, k, l, r)
}

/// The rotation a decomposed token describes.
pub open spec fn parts_rotation(t: Seq<char>, k: int, l: int, r: int) -> RotationMatrix {
    let before = t.subrange(0, k);
    let after = t.subrange(k + 1, t.len() as int);
    RotationMatrix {
        type_: spec_axis_of(axis_core(before))->0,
        negative: (before.len() > 0 && before[0] == '-') || l > 0,
        angle: spec_angle_of(after.subrange(l, after.len() - r))->0,
    }
}

/// The rotation a well-formed token describes.
pub open spec fn token_rotation(t: Seq<char>) -> RotationMatrix {
    let (k, l, r) = choose|k: int, l: int, r: int| token_parts_valid(t, k, l, r);
    parts_rotation(t, k, l, r)
}

proof fn lemma_only_paren_unique(t: Seq<char>, k1: int, k2: int)
    requires
        only_paren_at(t, k1),
        only_paren_at(t, k2),
    ensures
        k1 == k2,
{
    if k1 != k2 {
        assert(t[k1] == '(');
        assert(t[k1] != '(');
    }
}

proof fn lemma_dash_run_unique(s: Seq<char>, l1: int, l2: int)
    requires
        dash_run(s, l1),
        dash_run(s, l2),
    ensures
        l1 == l2,
{
    if l1 < l2 {
        assert(s[l1] == '-');
        assert(s[l1] != '-');
    }
    if l2 < l1 {
        assert(s[l2] == '-');
        assert(s[l2] != '-');
    }
}

proof fn lemma_rparen_tail_unique(s: Seq<char>, r1: int, r2: int)
    requires
        rparen_tail(s, r1),
        rparen_tail(s, r2),
    ensures
        r1 == r2,
{
    if r1 < r2 {
        assert(s[s.len() - r1 - 1] == ')');
        assert(s[s.len() - r1 - 1] != ')');
    }
    if r2 < r1 {
        assert(s[s.len() - r2 - 1] == ')');
        assert(s[s.len() - r2 - 1] != ')');
    }
}

/// Any two decompositions of one token agree, so [`token_rotation`] does not
/// depend on which decomposition the solver picks.
proof fn lemma_token_parts_unique(
    t: Seq<char>,
    k1: int,
    l1: int,
    r1: int,
    k2: int,
    l2: int,
    r2: int,
)
    requires
        token_parts_valid(t, k1, l1, r1),
        token_parts_valid(t, k2, l2, r2),
    ensures
        k1 == k2,
        l1 == l2,
        r1 == r2,
{
    lemma_only_paren_unique(t, k1, k2);
    let after = t.subrange(k1 + 1, t.len() as int);
    lemma_dash_run_unique(after, l1, l2);
    lemma_rparen_tail_unique(after, r1, r2);
}

pub proof fn lemma_token_rotation_from_parts(t: Seq<char>, k: int, l: int, r: int)
    requires
        token_parts_valid(t, k, l, r),
    ensures
        token_valid(t),
        token_rotation(t) == parts_rotation(t, k, l, r),
{
    assert(token_valid(t));
    let (k2, l2, r2) = choose|k2: int, l2: int, r2: int| token_parts_valid(t, k2, l2, r2);
    lemma_token_parts_unique(t, k, l, r, k2, l2, r2);
}

/// Parses an axis part held in `v[start..end]`.
fn axis_from_chars(v: &Vec<char>, start: usize, end: usize) -> (res: Option<RotationMatrixType>)
    requires
        start <= end <= v@.len(),
    ensures
        res == spec_axis_of(v@.subrange(start as int, end as int)),
{
    let ghost sub = v@.subrange(start as int, end as int);
    let len = end - start;
    if len == 1 {
        let c = v[start];
        proof {
            assert(sub[0] == c);
        }
        if c == '1' {
            Some(RotationMatrixType::R1)
        } else if c == '2' {
            Some(RotationMatrixType::R2)
        } else if c == '3' {
            Some(RotationMatrixType::R3)
        } else {
            None
        }
    } else if len == 2 {
        let c0 = v[start];
        let c1 = v[start + 1];
        proof {
            assert(sub[0] == c0);
            assert(sub[1] == c1);
        }
        if (c0 == 'r' || c0 == 'R') && c1 == '1' {
            Some(RotationMatrixType::R1)
        } else if (c0 == 'r' || c0 == 'R') && c1 == '2' {
            Some(RotationMatrixType::R2)
        } else if (c0 == 'r' || c0 == 'R') && c1 == '3' {
            Some(RotationMatrixType::R3)
        } else {
            None
        }
    } else {
        None
    }
}

/// Parses an angle name held in `v[start..end]`.
fn angle_from_chars(v: &Vec<char>, start: usize, end: usize) -> (res: Option<RotationMatrixAngle>)
    requires
        start <= end <= v@.len(),
    ensures
        res == spec_angle_of(v@.subrange(start as int, end as int)),
{
    let ghost sub = v@.subrange(start as int, end as int);
    let len = end - start;
    if len == 4 {
        proof {
            assert(sub[0] == v@[start as int]);
            assert(sub[1] == v@[start as int + 1]);
            assert(sub[2] == v@[start as int + 2]);
            assert(sub[3] == v@[start as int + 3]);
        }
        if v[start] == 'r' && v[start + 1] == 'o' && v[start + 2] == 'l' && v[start + 3] == 'l' {
            Some(RotationMatrixAngle::Roll)
        } else {
            None
        }
    } else if len == 5 {
        proof {
            assert(sub[0] == v@[start as int]);
            assert(sub[1] == v@[start as int + 1]);
            assert(sub[2] == v@[start as int + 2]);
            assert(sub[3] == v@[start as int + 3]);
            assert(sub[4] == v@[start as int + 4]);
        }
        if v[start] == 'p' && v[start + 1] == 'i' && v[start + 2] == 't' && v[start + 3] == 'c'
            && v[start + 4] == 'h' {
            Some(RotationMatrixAngle::Pitch)
        } else {
            None
        }
    } else if len == 3 {
        proof {
            assert(sub[0] == v@[start as int]);
            assert(sub[1] == v@[start as int + 1]);
            assert(sub[2] == v@[start as int + 2]);
        }
        if v[start] == 'y' && v[start + 1] == 'a' && v[start + 2] == 'w' {
            Some(RotationMatrixAngle::Yaw)
        } else {
            None
        }
    } else {
        None
    }
}

impl RotationMatrix {
    /// Parses one rotation-specification token, e.g. `"r3(yaw)"`,
    /// `"r1(-roll)"` or `"-r1(roll)"`.
    pub fn from_str(s: &str) -> (res: Result<RotationMatrix, Error>)
        ensures
            token_valid(s@) ==> (res matches Ok(m) && m == token_rotation(s@)),
            !token_valid(s@) ==> (res matches Err(e) && e matches Error::ParseRotate(p) && p@
                == s@),
    {
        let v = chars_of(s);
        let ghost t = s@;
        let n = v.len();

        // Locate the first '('.
        let mut k: usize = 0;
        while k < n && v[k] != '('
            invariant
                v@ == t,
                n == t.len(),
                k <= n,
                forall|j: int| 0 <= j < k ==> t[j] != '(',
            decreases n - k,
        {
            k += 1;
        }
        if k == n {
            proof {
                if token_valid(t) {
                    let (k2, l2, r2) = choose|k2: int, l2: int, r2: int|
                        token_parts_valid(t, k2, l2, r2);
                    assert(t[k2] == '(');
                    assert(t[k2] != '(');
                }
            }
            return Err(Error::ParseRotate(s.to_owned()));
        }

        // Make sure there is no second '('.
        let mut i: usize = k + 1;
        while i < n && v[i] != '('
            invariant
                v@ == t,
                n == t.len(),
                k < i <= n,
                forall|j: int| k < j < i ==> t[j] != '(',
            decreases n - i,
        {
            i += 1;
        }
        if i < n {
            proof {
                if token_valid(t) {
                    let (k2, l2, r2) = choose|k2: int, l2: int, r2: int|
                        token_parts_valid(t, k2, l2, r2);
                    if k2 == k {
                        assert(t[i as int] == '(');
                        assert(t[i as int] != '(');
                    } else {
                        assert(t[k as int] == '(');
                        assert(t[k as int] != '(');
                    }
                }
            }
            return Err(Error::ParseRotate(s.to_owned()));
        }
        proof {
            assert(only_paren_at(t, k as int));
        }
        let ghost after = t.subrange(k as int + 1, t.len() as int);

        // The part after '(' must be nonempty and end with ')'.
        if k + 1 == n || v[n - 1] != ')' {
            proof {
                if token_valid(t) {
                    let (k2, l2, r2) = choose|k2: int, l2: int, r2: int|
                        token_parts_valid(t, k2, l2, r2);
                    lemma_only_paren_unique(t, k2, k as int);
                    assert(after[after.len() - 1] == t[t.len() - 1]);
                }
            }
            return Err(Error::ParseRotate(s.to_owned()));
        }

        // Count the leading '-' run after '('.
        let mut l: usize = 0;
        while k + 1 + l < n && v[k + 1 + l] == '-'
            invariant
                v@ == t,
                n == t.len(),
                k + 1 <= n,
                l <= n - k - 1,
                forall|j: int| k + 1 <= j < k + 1 + l ==> t[j] == '-',
            decreases n - k - 1 - l,
        {
            l += 1;
        }
        proof {
            assert forall|j: int| 0 <= j < l implies after[j] == '-' by {
                assert(after[j] == t[k + 1 + j]);
            }
            if l < after.len() {
                assert(after[l as int] == t[k + 1 + l]);
            }
            assert(dash_run(after, l as int));
        }

        // Count the trailing ')' run.
        let mut r: usize = 0;
        while r < n - k - 1 && v[n - 1 - r] == ')'
            invariant
                v@ == t,
                n == t.len(),
                k + 1 < n,
                r <= n - k - 1,
                forall|j: int| n - r <= j < n ==> t[j] == ')',
            decreases n - k - 1 - r,
        {
            r += 1;
        }
        proof {
            assert forall|j: int| after.len() - r <= j < after.len() implies after[j] == ')' by {
                assert(after[j] == t[k + 1 + j]);
            }
            if (r as int) < after.len() {
                assert(after[after.len() - r - 1] == t[n - 1 - (r as int)]);
            }
            assert(rparen_tail(after, r as int));
            // The dash run stops before the trailing parens: the token ends
            // with ')', so the two runs cannot overlap.
            assert(after[after.len() - 1] == t[t.len() - 1]);
            if l > after.len() - r {
                let p = after.len() - r;
                assert(after[p] == '-');
                assert(after[p] == ')');
            }
        }

        // Parse the axis part, allowing one leading '-'.
        let neg_before = k > 0 && v[0] == '-';
        let astart: usize = if neg_before {
            1
        } else {
            0
        };
        let axis = axis_from_chars(&v, astart, k);
        proof {
            assert(axis_core(t.subrange(0, k as int)) =~= t.subrange(astart as int, k as int));
        }

        // Parse the angle name between the two runs.
        let angle = angle_from_chars(&v, k + 1 + l, n - r);
        proof {
            assert(after.subrange(l as int, after.len() - r) =~= t.subrange(
                k as int + 1 + l,
                n as int - r,
            ));
        }

        match (axis, angle) {
            (Some(a), Some(g)) => {
                let m = RotationMatrix { type_: a, negative: neg_before || l > 0, angle: g };
                proof {
                    assert(token_parts_valid(t, k as int, l as int, r as int));
                    lemma_token_rotation_from_parts(t, k as int, l as int, r as int);
                }
                Ok(m)
            },
            _ => {
                proof {
                    if token_valid(t) {
                        let (k2, l2, r2) = choose|k2: int, l2: int, r2: int|
                            token_parts_valid(t, k2, l2, r2);
                        lemma_only_paren_unique(t, k2, k as int);
                        lemma_dash_run_unique(after, l2, l as int);
                        lemma_rparen_tail_unique(after, r2, r as int);
                    }
                }
                Err(Error::ParseRotate(s.to_owned()))
            },
        }
    }
}

impl Default for RotationOrder {
    /// The conventional yaw, pitch, roll order: what parsing the tokens
    /// `"r3(yaw)"`, `"r2(pitch)"`, `"r1(roll)"` yields.
    fn default() -> (o: RotationOrder)
        ensures
            o == (RotationOrder {
                first: RotationMatrix {
                    type_: RotationMatrixType::R3,
                    negative: false,
                    angle: RotationMatrixAngle::Yaw,
                },
                second: RotationMatrix {
                    type_: RotationMatrixType::R2,
                    negative: false,
                    angle: RotationMatrixAngle::Pitch,
                },
                third: RotationMatrix {
                    type_: RotationMatrixType::R1,
                    negative: false,
                    angle: RotationMatrixAngle::Roll,
                },
            }),
    {
        RotationOrder {
            first: RotationMatrix {
                type_: RotationMatrixType::R3,
                negative: false,
                angle: RotationMatrixAngle::Yaw,
            },
            second: RotationMatrix {
                type_: RotationMatrixType::R2,
                negative: false,
                angle: RotationMatrixAngle::Pitch,
            },
            third: RotationMatrix {
                type_: RotationMatrixType::R1,
                negative: false,
                angle: RotationMatrixAngle::Roll,
            },
        }
    }
}

impl RotationMatrixType {
    /// Parses a bare axis part, e.g. `"r1"`, `"R2"` or `"3"`.
    pub fn from_str(s: &str) -> (res: Result<RotationMatrixType, Error>)
        ensures
            spec_axis_of(s@) matches Some(a) ==> res == Ok::<RotationMatrixType, Error>(a),
            spec_axis_of(s@) is None ==> (res matches Err(e) && e matches Error::ParseRotate(p)
                && p@ == s@),
    {
        let v = chars_of(s);
        let r = axis_from_chars(&v, 0, v.len());
        proof {
            assert(v@.subrange(0, v@.len() as int) =~= s@);
        }
        match r {
            Some(a) => Ok(a),
            None => Err(Error::ParseRotate(s.to_owned())),
        }
    }

    /// The zero-based index of the axis this rotation is about.
    pub fn axis_index(&self) -> (i: usize)
        ensures
            self is R1 ==> i == 0,
            self is R2 ==> i == 1,
            self is R3 ==> i == 2,
    {
        match self {
            RotationMatrixType::R1 => 0,
            RotationMatrixType::R2 => 1,
            RotationMatrixType::R3 => 2,
        }
    }
}

impl RotationMatrixAngle {
    /// Parses a bare angle name: `"roll"`, `"pitch"` or `"yaw"`.
    pub fn from_str(s: &str) -> (res: Result<RotationMatrixAngle, Error>)
        ensures
            spec_angle_of(s@) matches Some(a) ==> res == Ok::<RotationMatrixAngle, Error>(a),
            spec_angle_of(s@) is None ==> (res matches Err(e) && e matches Error::ParseRotate(p)
                && p@ == s@),
    {
        let v = chars_of(s);
        let r = angle_from_chars(&v, 0, v.len());
        proof {
            assert(v@.subrange(0, v@.len() as int) =~= s@);
        }
        match r {
            Some(a) => Ok(a),
            None => Err(Error::ParseRotate(s.to_owned())),
        }
    }

    /// Picks the encoded angle this selector names out of a roll, pitch, yaw
    /// triple.
    pub fn select(&self, r: u64, p: u64, y: u64) -> (a: u64)
        ensures
            self is Roll ==> a == r,
            self is Pitch ==> a == p,
            self is Yaw ==> a == y,
    {
        match self {
            RotationMatrixAngle::Roll => r,
            RotationMatrixAngle::Pitch => p,
            RotationMatrixAngle::Yaw => y,
        }
    }
}

impl RotationOrder {
    /// Creates a new rotation order from three strings.
    pub fn new(first: &str, second: &str, third: &str) -> (res: Result<RotationOrder, Error>)
        ensures
            (token_valid(first@) && token_valid(second@) && token_valid(third@)) <==> res is Ok,
            res matches Ok(o) ==> o.first == token_rotation(first@) && o.second == token_rotation(
                second@,
            ) && o.third == token_rotation(third@),
            !token_valid(first@) ==> (res matches Err(e) && e matches Error::ParseRotate(p) && p@
                == first@),
            token_valid(first@) && !token_valid(second@) ==> (res matches Err(e)
                && e matches Error::ParseRotate(p) && p@ == second@),
            token_valid(first@) && token_valid(second@) && !token_valid(third@) ==> (
            res matches Err(e) && e matches Error::ParseRotate(p) && p@ == third@),
    {
        let f = match RotationMatrix::from_str(first) {
            Ok(m) => m,
            Err(e) => {
                return Err(e);
            },
        };
        let s = match RotationMatrix::from_str(second) {
            Ok(m) => m,
            Err(e) => {
                return Err(e);
            },
        };
        let t = match RotationMatrix::from_str(third) {
            Ok(m) => m,
            Err(e) => {
                return Err(e);
            },
        };
        Ok(RotationOrder { first: f, second: s, third: t })
    }
}

} // verus!

use vstd::prelude::*;

verus! {

/// Which side an operator groups to when it is chained with itself.
#[derive(Clone, Copy, Debug, PartialEq, Eq)]
pub enum Assoc {
    Left,
    Right,
}

/// How tightly an infix operator binds on each side.
#[derive(Clone, Copy, Debug, PartialEq, Eq)]
pub struct OperatorInfo {
    pub lbp: u8,
    pub rbp: u8,
    pub assoc: Assoc,
}

impl OperatorInfo {
    /// The binding powers agree with the associativity: a left-associative
    /// operator binds tighter on its right, a right-associative one does not.
    pub open spec fn wf(&self) -> bool {
        match self.assoc {
            Assoc::Left => self.rbp > self.lbp,
            Assoc::Right => self.rbp <= self.lbp,
        }
    }

    /// A left-associative operator of precedence `bp`.
    pub fn left(bp: u8) -> (r: OperatorInfo)
        requires
            bp < 255,
        ensures
            r.wf(),
            r == (OperatorInfo { lbp: bp, rbp: (bp + 1) as u8, assoc: Assoc::Left }),
    {
        OperatorInfo { lbp: bp, rbp: bp + 1, assoc: Assoc::Left }
    }

    /// A right-associative operator of precedence `bp`.
    pub fn right(bp: u8) -> (r: OperatorInfo)
        requires
            bp > 0,
        ensures
            r.wf(),
            r == (OperatorInfo { lbp: bp, rbp: (bp - 1) as u8, assoc: Assoc::Right }),
    {
        OperatorInfo { lbp: bp, rbp: bp - 1, assoc: Assoc::Right }
    }
}

/// The precedence of multiplicative operators.
pub const MULTIPLICATIVE_BP: u8 = 20;

/// The precedence of additive operators.
pub const ADDITIVE_BP: u8 = 10;

/// The map that a list of entries stands for: a later entry for a name
/// overrides an earlier one.
pub open spec fn table_of(s: Seq<(String, OperatorInfo)>) -> Map<Seq<char>, OperatorInfo>
    decreases s.len(),
{
    if s.len() == 0 {
        Map::empty()
    } else {
        table_of(s.drop_last()).insert(s.last().0@, s.last().1)
    }
}

/// The operators that a parser knows from the start: `+`, and `*`, which
/// binds tighter; both associate to the left.
pub open spec fn builtin_operators() -> Map<Seq<char>, OperatorInfo> {
    map![
        seq!['+'] => OperatorInfo { lbp: ADDITIVE_BP, rbp: (ADDITIVE_BP + 1) as u8, assoc: Assoc::Left },
        seq!['*'] => OperatorInfo { lbp: MULTIPLICATIVE_BP, rbp: (MULTIPLICATIVE_BP + 1) as u8, assoc: Assoc::Left },
    ]
}

/// Operator names with their binding powers.
pub struct FixityTable {
    entries: Vec<(String, OperatorInfo)>,
}

impl View for FixityTable {
    type V = Map<Seq<char>, OperatorInfo>;

    closed spec fn view(&self) -> Map<Seq<char>, OperatorInfo> {
        table_of(self.entries@)
    }
}

proof fn lemma_later_entries_other(s: Seq<(String, OperatorInfo)>, i: int, k: Seq<char>)
    requires
        0 <= i <= s.len(),
        forall|j: int| i <= j < s.len() ==> (#[trigger] s[j]).0@ != k,
    ensures
        table_of(s).contains_key(k) == table_of(s.subrange(0, i)).contains_key(k),
        table_of(s).contains_key(k) ==> table_of(s)[k] == table_of(s.subrange(0, i))[k],
    decreases s.len(),
{
    if i == s.len() {
        assert(s.subrange(0, i) =~= s);
    } else {
        let u = s.drop_last();
        assert(s[s.len() - 1].0@ != k);
        lemma_later_entries_other(u, i, k);
        assert(u.subrange(0, i) =~= s.subrange(0, i));
    }
}

impl FixityTable {
    /// Every entry is well formed.
    pub closed spec fn wf(&self) -> bool {
        forall|j: int| 0 <= j < self.entries@.len() ==> (#[trigger] self.entries@[j]).1.wf()
    }

    /// A table without operators.
    pub fn empty() -> (r: FixityTable)
        ensures
            r.wf(),
            r@ == Map::<Seq<char>, OperatorInfo>::empty(),
    {
        FixityTable { entries: Vec::new() }
    }

    /// The table of the built-in operators.
    pub fn builtin() -> (r: FixityTable)
        ensures
            r.wf(),
            r@ == builtin_operators(),
    {
        let mut t = FixityTable::empty();
        let plus = "+".to_owned();
        let star = "*".to_owned();
        proof {
            reveal_strlit("+");
            reveal_strlit("*");
            assert(plus@ =~= seq!['+']);
            assert(star@ =~= seq!['*']);
        }
        t.insert(plus, OperatorInfo::left(ADDITIVE_BP));
        t.insert(star, OperatorInfo::left(MULTIPLICATIVE_BP));
        proof {
            assert(t@ =~= builtin_operators());
        }
        t
    }

    /// Adds `name`, or gives it new binding powers.
    pub fn insert(&mut self, name: String, info: OperatorInfo)
        requires
            old(self).wf(),
            info.wf(),
        ensures
            final(self).wf(),
            final(self)@ == old(self)@.insert(name@, info),
    {
        let ghost before = self.entries@;
        self.entries.push((name, info));
        proof {
            assert(self.entries@.drop_last() =~= before);
        }
    }

    /// The binding powers of `name`, if it is an operator.
    pub fn lookup(&self, name: &String) -> (r: Option<OperatorInfo>)
        requires
            self.wf(),
        ensures
            r == (if self@.contains_key(name@) {
                Some(self@[name@])
            } else {
                None
            }),
            r matches Some(info) ==> info.wf(),
    {
        let mut i = self.entries.len();
        while i > 0
            invariant
                self.wf(),
                i <= self.entries@.len(),
                forall|j: int|
                    i <= j < self.entries@.len() ==> (#[trigger] self.entries@[j]).0@ != name@,
            decreases i,
        {
            if self.entries[i - 1].0 == *name {
                proof {
                    let s = self.entries@;
                    lemma_later_entries_other(s, i as int, name@);
                    let sub = s.subrange(0, i as int);
                    assert(sub.drop_last() =~= s.subrange(0, i - 1));
                    assert(sub.last() == s[i - 1]);
                    assert(s[i - 1].1.wf());
                }
                return Some(self.entries[i - 1].1);
            }
            i -= 1;
        }
        proof {
            lemma_later_entries_other(self.entries@, 0, name@);
        }
        None
    }
}

} // verus!

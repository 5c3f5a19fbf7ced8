//! The statement groups that register one simulation instance each, and
//! their rendering as Rust statements on a registration target.
use vstd::prelude::*;
use crate::decimal::{decimal, push_decimal};

verus! {

/// How many simulation instances the generator registers.
pub const SIMULATION_COUNT: usize = 2000;

/// The three registrations made for every instance.
#[derive(Clone, Copy, Debug, PartialEq, Eq, Structural)]
pub enum Registration {
    /// `setup_physics::<i>`, run once at startup.
    Setup,
    /// `board_movement::<i>`, run every frame.
    Update,
    /// `reset_simulation::<i>`, run every frame on which `must_reset::<i>` holds.
    Reset,
}

/// One registration statement for one instance index.
#[derive(Clone, Copy, Debug, PartialEq, Eq, Structural)]
pub struct Statement {
    pub registration: Registration,
    pub index: usize,
}

/// The statements that register one instance.
#[derive(Clone, Copy, Debug, PartialEq, Eq, Structural)]
pub struct StatementGroup {
    pub setup: Statement,
    pub update: Statement,
    pub reset: Statement,
}

/// The group that registers instance `index`.
pub open spec fn group_for(index: usize) -> StatementGroup {
    StatementGroup {
        setup: Statement { registration: Registration::Setup, index },
        update: Statement { registration: Registration::Update, index },
        reset: Statement { registration: Registration::Reset, index },
    }
}

/// The groups for instances `0 .. n`, in order.
pub open spec fn groups_for(n: nat) -> Seq<StatementGroup> {
    Seq::new(n, |i: int| group_for(i as usize))
}

impl StatementGroup {
    /// Every statement of the group refers to `index`, each with its own
    /// registration.
    pub open spec fn registers(self, index: usize) -> bool {
        self == group_for(index)
    }

    /// The group that registers instance `index`.
    pub fn new(index: usize) -> (g: StatementGroup)
        ensures
            g == group_for(index),
    {
        StatementGroup {
            setup: Statement { registration: Registration::Setup, index },
            update: Statement { registration: Registration::Update, index },
            reset: Statement { registration: Registration::Reset, index },
        }
    }

    /// The index that the group registers.
    pub fn index(&self) -> (r: usize)
        ensures
            r == self.setup.index,
    {
        self.setup.index
    }

    /// The group's statements in the order they are emitted.
    pub fn statements(&self) -> (r: Vec<Statement>)
        ensures
            r@ == seq![self.setup, self.update, self.reset],
    {
        let r = vec![self.setup, self.update, self.reset];
        assert(r@ =~= seq![self.setup, self.update, self.reset]);
        r
    }
}

/// The groups for instances `0 .. n`, in order: the group at position `i`
/// registers instance `i` in each of its three statements.
pub fn statement_groups(n: usize) -> (r: Vec<StatementGroup>)
    ensures
        r@ == groups_for(n as nat),
        r@.len() == n,
        forall|i: int|
            0 <= i < n ==> {
                &&& #[trigger] r@[i].setup.index == i
                &&& r@[i].update.index == i
                &&& r@[i].reset.index == i
            },
{
    let mut r: Vec<StatementGroup> = Vec::new();
    let mut i: usize = 0;
    while i < n
        invariant
            i <= n,
            r@ =~= groups_for(i as nat),
        decreases n - i,
    {
        r.push(StatementGroup::new(i));
        i = i + 1;
    }
    r
}

/// The text of one statement on the registration target `target`.
pub open spec fn statement_text(target: Seq<char>, s: Statement) -> Seq<char> {
    let i = decimal(s.index as nat);
    match s.registration {
        Registration::Setup => target + ".add_systems(Startup, setup_physics::<"@ + i + ">);\n"@,
        Registration::Update => target + ".add_systems(Update, board_movement::<"@ + i
            + ">);\n"@,
        Registration::Reset => target + ".add_systems(Update, reset_simulation::<"@ + i
            + ">.run_if(must_reset::<"@ + i + ">));\n"@,
    }
}

/// The text of one group: its three statements in order.
pub open spec fn group_text(target: Seq<char>, g: StatementGroup) -> Seq<char> {
    statement_text(target, g.setup) + statement_text(target, g.update) + statement_text(
        target,
        g.reset,
    )
}

/// The text of a sequence of groups, one after the other.
pub open spec fn groups_text(target: Seq<char>, gs: Seq<StatementGroup>) -> Seq<char>
    decreases gs.len(),
{
    if gs.len() == 0 {
        Seq::empty()
    } else {
        groups_text(target, gs.drop_last()) + group_text(target, gs.last())
    }
}

/// The full expansion for `n` instances on the registration target `target`.
pub open spec fn expansion_text(target: Seq<char>, n: nat) -> Seq<char> {
    groups_text(target, groups_for(n))
}

/// Some group of `gs` registers instance `k`.
pub open spec fn registered(gs: Seq<StatementGroup>, k: usize) -> bool {
    exists|i: int| 0 <= i < gs.len() && (#[trigger] gs[i]).setup.index == k
}

/// The groups for `n` instances are exactly `n`, and in the group at
/// position `i` all three statements register instance `i`.
pub proof fn lemma_group_count(n: usize)
    ensures
        groups_for(n as nat).len() == n,
        forall|i: int|
            0 <= i < n ==> {
                let g = #[trigger] groups_for(n as nat)[i];
                &&& g.registers(i as usize)
                &&& g.setup.index == g.update.index
                &&& g.update.index == g.reset.index
            },
{
}

/// Over the groups for `n` instances, every index in `0 .. n` is registered
/// by exactly one group, and no index outside `0 .. n` is registered.
pub proof fn lemma_indices_cover(n: usize)
    ensures
        forall|k: usize| k < n ==> #[trigger] registered(groups_for(n as nat), k),
        forall|i: int, j: int|
            0 <= i < n && 0 <= j < n && i != j ==> (#[trigger] groups_for(n as nat)[i]).setup.index
                != (#[trigger] groups_for(n as nat)[j]).setup.index,
        forall|i: int| 0 <= i < n ==> (#[trigger] groups_for(n as nat)[i]).setup.index < n,
{
    assert forall|k: usize| k < n implies #[trigger] registered(groups_for(n as nat), k) by {
        assert(groups_for(n as nat)[k as int].setup.index == k);
    }
}

/// The expansion for no instance is empty, and the expansion for `n`
/// instances is the expansion for the first `n - 1` followed by the group
/// of instance `n - 1`: the text holds the `n` groups in index order.
pub proof fn lemma_expansion_by_group(target: Seq<char>, n: usize)
    ensures
        expansion_text(target, 0) == Seq::<char>::empty(),
        n > 0 ==> expansion_text(target, n as nat) == expansion_text(target, (n - 1) as nat)
            + group_text(target, group_for((n - 1) as usize)),
{
    if n > 0 {
        assert(groups_for(n as nat).drop_last() =~= groups_for((n - 1) as nat));
    }
}

/// Appends the text of `s` on `target` to `out`.
pub fn push_statement(out: &mut String, target: &str, s: &Statement)
    ensures
        final(out)@ == old(out)@ + statement_text(target@, *s),
{
    let ghost start = out@;
    out.append(target);
    match s.registration {
        Registration::Setup => {
            out.append(".add_systems(Startup, setup_physics::<");
            push_decimal(out, s.index);
            out.append(">);\n");
        },
        Registration::Update => {
            out.append(".add_systems(Update, board_movement::<");
            push_decimal(out, s.index);
            out.append(">);\n");
        },
        Registration::Reset => {
            out.append(".add_systems(Update, reset_simulation::<");
            push_decimal(out, s.index);
            out.append(">.run_if(must_reset::<");
            push_decimal(out, s.index);
            out.append(">));\n");
        },
    }
    assert(out@ =~= start + statement_text(target@, *s));
}

/// The text of `s` on `target`.
pub fn render_statement(target: &str, s: &Statement) -> (r: String)
    ensures
        r@ == statement_text(target@, *s),
{
    let mut r = String::new();
    push_statement(&mut r, target, s);
    assert(r@ =~= statement_text(target@, *s));
    r
}

/// The text of `groups` on `target`, one group after the other.
pub fn render_groups(target: &str, groups: &Vec<StatementGroup>) -> (r: String)
    ensures
        r@ == groups_text(target@, groups@),
{
    let mut r = String::new();
    let mut i: usize = 0;
    while i < groups.len()
        invariant
            i <= groups@.len(),
            r@ == groups_text(target@, groups@.subrange(0, i as int)),
        decreases groups@.len() - i,
    {
        let ghost before = r@;
        let g = &groups[i];
        push_statement(&mut r, target, &g.setup);
        push_statement(&mut r, target, &g.update);
        push_statement(&mut r, target, &g.reset);
        proof {
            let next = groups@.subrange(0, i + 1);
            assert(next.drop_last() =~= groups@.subrange(0, i as int));
            assert(r@ =~= before + group_text(target@, next.last()));
        }
        i = i + 1;
    }
    assert(groups@.subrange(0, groups@.len() as int) =~= groups@);
    r
}

/// The registrations of instances `0 .. n` on the registration target whose
/// text is `target`.
pub fn expand_target(target: &str, n: usize) -> (r: String)
    ensures
        r@ == expansion_text(target@, n as nat),
{
    let groups = statement_groups(n);
    render_groups(target, &groups)
}

} // verus!

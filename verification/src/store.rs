//! Recipients as the store delivers them, the quota that one fetch has to
//! cover, and the bounded retry of closing the store.

use vstd::prelude::*;

verus! {

/// The quota of a recipient whose row gives none.
pub const DEFAULT_COUNT: u8 = 10;

/// One recipient: an address and the number of items of a digest.
#[derive(Clone, Debug, PartialEq, Eq)]
pub struct User {
    pub email: String,
    pub count: u8,
}

/// A [`User`] as contracts see it.
pub struct UserView {
    pub email: Seq<char>,
    pub count: u8,
}

impl View for User {
    type V = UserView;

    open spec fn view(&self) -> UserView {
        UserView { email: self.email@, count: self.count }
    }
}

/// The views of a sequence of recipients, in the same order.
pub open spec fn user_views(users: Seq<User>) -> Seq<UserView> {
    users.map_values(|user: User| user@)
}

/// One row of the store as it was read.
#[derive(Clone, Debug, PartialEq, Eq)]
pub enum Row {
    /// The row could not be read at all.
    Unreadable,
    /// The row was read; a column that could not be read is `None`.
    Read { email: Option<String>, count: Option<u8> },
}

/// A [`Row`] as contracts see it.
pub enum RowView {
    Unreadable,
    Read { email: Option<Seq<char>>, count: Option<u8> },
}

impl View for Row {
    type V = RowView;

    open spec fn view(&self) -> RowView {
        match self {
            Row::Unreadable => RowView::Unreadable,
            Row::Read { email, count } => RowView::Read {
                email: match email {
                    Some(email) => Some(email@),
                    None => None,
                },
                count: *count,
            },
        }
    }
}

impl UserView {
    /// The recipient that stands for an unreadable row: no address and
    /// the default quota.
    pub open spec fn empty() -> UserView {
        UserView { email: Seq::empty(), count: DEFAULT_COUNT }
    }

    /// The recipient of a row: an unreadable address is empty, an
    /// unreadable quota is the default.
    pub open spec fn from_row(row: RowView) -> UserView {
        match row {
            RowView::Unreadable => UserView::empty(),
            RowView::Read { email, count } => UserView {
                email: match email {
                    Some(email) => email,
                    None => Seq::empty(),
                },
                count: match count {
                    Some(count) => count,
                    None => DEFAULT_COUNT,
                },
            },
        }
    }
}

impl User {
    /// The recipient that stands for an unreadable row.
    pub fn empty() -> (user: User)
        ensures
            user@ == UserView::empty(),
    {
        User { email: String::new(), count: DEFAULT_COUNT }
    }

    /// The recipient of one row.
    pub fn from_row(row: Row) -> (user: User)
        ensures
            user@ == UserView::from_row(row@),
    {
        match row {
            Row::Unreadable => User::empty(),
            Row::Read { email, count } => {
                let email = match email {
                    Some(email) => email,
                    None => String::new(),
                };
                let count = match count {
                    Some(count) => count,
                    None => DEFAULT_COUNT,
                };
                User { email, count }
            },
        }
    }
}

/// The recipients of the rows that the store delivered, one per row and in
/// the order of the rows.
pub fn get_all_users(rows: Vec<Row>) -> (users: Vec<User>)
    ensures
        users@.len() == rows@.len(),
        forall|i: int| 0 <= i < rows@.len() ==> users@[i]@ == UserView::from_row(rows@[i]@),
{
    let ghost all = rows@;
    let mut users: Vec<User> = Vec::new();
    for row in it: rows
        invariant
            it.seq() == all,
            users@.len() == it.index(),
            forall|i: int| 0 <= i < it.index() ==> users@[i]@ == UserView::from_row(all[i]@),
    {
        users.push(User::from_row(row));
    }
    users
}

/// Whether `highest` is the quota that one fetch has to cover: the largest
/// quota among the recipients, or the default where there is none.
pub open spec fn is_highest_count(users: Seq<UserView>, highest: u8) -> bool {
    if users.len() == 0 {
        highest == DEFAULT_COUNT
    } else {
        &&& exists|i: int| 0 <= i < users.len() && users[i].count == highest
        &&& forall|i: int| 0 <= i < users.len() ==> users[i].count <= highest
    }
}

/// The quota that one fetch has to cover.
pub open spec fn highest_of(users: Seq<UserView>) -> u8 {
    choose|highest: u8| is_highest_count(users, highest)
}

/// The quota that one fetch has to cover.
pub fn highest_count(users: &Vec<User>) -> (highest: u8)
    ensures
        is_highest_count(user_views(users@), highest),
        highest == highest_of(user_views(users@)),
{
    if users.len() == 0 {
        proof {
            lemma_highest(user_views(users@), DEFAULT_COUNT);
        }
        return DEFAULT_COUNT;
    }
    let ghost views = user_views(users@);
    let mut highest: u8 = users[0].count;
    let ghost mut witness: int = 0;
    let mut i: usize = 1;
    while i < users.len()
        invariant
            1 <= i <= users.len(),
            views == user_views(users@),
            0 <= witness < i,
            views[witness].count == highest,
            forall|k: int| 0 <= k < i ==> views[k].count <= highest,
        decreases users.len() - i,
    {
        if users[i].count > highest {
            highest = users[i].count;
            proof {
                witness = i as int;
            }
        }
        i += 1;
    }
    proof {
        lemma_highest(views, highest);
    }
    highest
}

/// At most one quota is the highest of given recipients.
pub proof fn lemma_highest_count_unique(users: Seq<UserView>, a: u8, b: u8)
    requires
        is_highest_count(users, a),
        is_highest_count(users, b),
    ensures
        a == b,
{
}

/// A quota that is the highest of given recipients is the one that
/// [`highest_of`] names.
pub proof fn lemma_highest(users: Seq<UserView>, found: u8)
    requires
        is_highest_count(users, found),
    ensures
        highest_of(users) == found,
{
    lemma_highest_count_unique(users, found, highest_of(users));
}

/// The quota of a fetch covers every recipient's quota and is the quota
/// of one of them; without recipients it is the default.
pub proof fn lemma_highest_covers(users: Seq<UserView>)
    ensures
        is_highest_count(users, highest_of(users)),
        users.len() == 0 ==> highest_of(users) == DEFAULT_COUNT,
        forall|i: int| 0 <= i < users.len() ==> (#[trigger] users[i]).count <= highest_of(users),
        users.len() > 0 ==> exists|i: int| 0 <= i < users.len() && users[i].count == highest_of(users),
    decreases users.len(),
{
    if users.len() == 0 {
        assert(is_highest_count(users, DEFAULT_COUNT));
    } else if users.len() == 1 {
        assert(is_highest_count(users, users[0].count));
    } else {
        let rest = users.drop_last();
        lemma_highest_covers(rest);
        let before = highest_of(rest);
        let last = users.last().count;
        let w = choose|i: int| 0 <= i < rest.len() && rest[i].count == before;
        if last > before {
            assert(users[users.len() - 1].count == last);
            assert forall|i: int| 0 <= i < users.len() implies users[i].count <= last by {
                if i < rest.len() {
                    assert(users[i] == rest[i]);
                }
            }
            assert(is_highest_count(users, last));
        } else {
            assert(users[w] == rest[w]);
            assert forall|i: int| 0 <= i < users.len() implies users[i].count <= before by {
                if i < rest.len() {
                    assert(users[i] == rest[i]);
                }
            }
            assert(is_highest_count(users, before));
        }
    }
}

/// How closing the store ended.
#[derive(Clone, Copy, Debug, PartialEq, Eq, Structural)]
pub enum CloseResult {
    /// An attempt succeeded.
    Closed,
    /// Every permitted attempt failed.
    GaveUp,
}

/// What to do next about closing the store.
#[derive(Clone, Copy, Debug, PartialEq, Eq, Structural)]
pub enum CloseStep {
    /// Try to close the store (once more).
    Attempt,
    /// Stop trying.
    Done(CloseResult),
}

/// The bounded retry of closing the store: at most `retries` attempts are
/// made, and the first success ends them.
#[derive(Clone, Copy, Debug, PartialEq, Eq, Structural)]
pub struct CloseRetry {
    /// The number of attempts allowed.
    pub retries: u8,
    /// The number of attempts that failed so far.
    pub failed: u8,
    /// Whether an attempt succeeded.
    pub closed: bool,
}

impl CloseRetry {
    /// No more attempts were made than allowed.
    pub open spec fn wf(self) -> bool {
        self.failed <= self.retries
    }

    /// The step that this state asks for.
    pub open spec fn next(self) -> CloseStep {
        if self.closed {
            CloseStep::Done(CloseResult::Closed)
        } else if self.failed < self.retries {
            CloseStep::Attempt
        } else {
            CloseStep::Done(CloseResult::GaveUp)
        }
    }

    /// The state after an attempt that closed the store or not. Where no
    /// attempt was asked for, the state stays as it is.
    pub open spec fn after(self, closed: bool) -> CloseRetry {
        if self.next() != CloseStep::Attempt {
            self
        } else if closed {
            CloseRetry { closed: true, ..self }
        } else {
            CloseRetry { failed: (self.failed + 1) as u8, ..self }
        }
    }

    /// The state before the first attempt.
    pub fn new(retries: u8) -> (state: CloseRetry)
        ensures
            state == (CloseRetry { retries, failed: 0, closed: false }),
            state.wf(),
    {
        CloseRetry { retries, failed: 0, closed: false }
    }

    /// The step that this state asks for.
    pub fn step(&self) -> (step: CloseStep)
        ensures
            step == self.next(),
    {
        if self.closed {
            CloseStep::Done(CloseResult::Closed)
        } else if self.failed < self.retries {
            CloseStep::Attempt
        } else {
            CloseStep::Done(CloseResult::GaveUp)
        }
    }

    /// Records the result of the attempt that the state asked for. Where
    /// it asked for none, nothing is recorded.
    pub fn record(&mut self, closed: bool)
        ensures
            *final(self) == old(self).after(closed),
            old(self).wf() ==> final(self).wf(),
    {
        if self.closed || self.failed >= self.retries {
            return ;
        }
        if closed {
            self.closed = true;
        } else {
            self.failed = self.failed + 1;
        }
    }
}

/// Closing the store is tried at most as often as allowed: each failure
/// is counted, a success ends the attempts, and when the count has
/// reached the allowance the store is given up.
pub proof fn lemma_close_is_bounded(state: CloseRetry, closed: bool)
    requires
        state.wf(),
    ensures
        state.after(closed).wf(),
        state.after(closed).retries == state.retries,
        state.next() == CloseStep::Attempt && closed ==> state.after(closed).next()
            == CloseStep::Done(CloseResult::Closed),
        state.next() == CloseStep::Attempt && !closed ==> state.after(closed).failed
            == state.failed + 1,
        !state.closed && state.failed == state.retries ==> state.next() == CloseStep::Done(
            CloseResult::GaveUp,
        ),
        state.next() is Done ==> state.after(closed) == state,
{
}

} // verus!

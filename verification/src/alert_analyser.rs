use vstd::prelude::*;
use crate::message::TxMessage;
use crate::status::{Status, StatusView};
use crate::status_book::{StatusBook, well_keyed};

verus! {

/// An alert: the status a check had before (none for a check seen for the
/// first time) and the status it has now.
#[derive(Debug, PartialEq, Eq)]
pub struct StateChange {
    pub previous_status: Option<Status>,
    pub current_status: Status,
}

/// The mathematical value of a [`StateChange`].
pub struct StateChangeView {
    pub previous_status: Option<StatusView>,
    pub current_status: StatusView,
}

impl View for StateChange {
    type V = StateChangeView;

    open spec fn view(&self) -> StateChangeView {
        StateChangeView {
            previous_status: match self.previous_status {
                Some(p) => Some(p@),
                None => None,
            },
            current_status: self.current_status@,
        }
    }
}

impl Clone for StateChange {
    fn clone(&self) -> (copy: Self)
        ensures
            copy@ == self@,
    {
        StateChange {
            previous_status: match &self.previous_status {
                Some(p) => Some(p.clone()),
                None => None,
            },
            current_status: self.current_status.clone(),
        }
    }
}

/// The last known status of the check called `name`, if any.
pub open spec fn last_known(book: Map<Seq<char>, StatusView>, name: Seq<char>) -> Option<StatusView> {
    if book.contains_key(name) {
        Some(book[name])
    } else {
        None
    }
}

/// The alert owed when `current` arrives and `previous` was the last known
/// status of its check: one for a check seen for the first time, one when the
/// status field differs, none otherwise.
pub open spec fn alert_for(previous: Option<StatusView>, current: StatusView) -> Option<StateChangeView> {
    match previous {
        None => Some(StateChangeView { previous_status: None, current_status: current }),
        Some(p) => if p.status != current.status {
            Some(StateChangeView { previous_status: Some(p), current_status: current })
        } else {
            None
        },
    }
}

/// One step of the analyser on the book of last known statuses: the book
/// after `current` is filed, and the alert owed.
pub open spec fn analyse(book: Map<Seq<char>, StatusView>, current: StatusView) -> (Map<Seq<char>, StatusView>, Option<StateChangeView>) {
    (book.insert(current.name, current), alert_for(last_known(book, current.name), current))
}

/// After a status is handled, it is the last known status of its check.
pub proof fn law_last_report_is_known(book: Map<Seq<char>, StatusView>, current: StatusView)
    ensures
        analyse(book, current).0.contains_key(current.name),
        analyse(book, current).0[current.name] == current,
{
}

/// Handling a status leaves what is known of every other check as it was.
pub proof fn law_other_checks_untouched(
    book: Map<Seq<char>, StatusView>,
    current: StatusView,
    other: Seq<char>,
)
    requires
        other != current.name,
    ensures
        analyse(book, current).0.contains_key(other) == book.contains_key(other),
        book.contains_key(other) ==> analyse(book, current).0[other] == book[other],
{
}

/// The first status ever seen of a check always raises an alert, with no
/// previous status.
pub proof fn law_first_report_alerts(book: Map<Seq<char>, StatusView>, current: StatusView)
    requires
        !book.contains_key(current.name),
    ensures
        analyse(book, current).1 == Some(
            StateChangeView { previous_status: None, current_status: current },
        ),
{
}

/// For a check already known, an alert is raised exactly when the status
/// field differs from the last known one, and it carries that last known
/// status as the previous one.
pub proof fn law_alert_iff_status_changed(book: Map<Seq<char>, StatusView>, current: StatusView)
    requires
        book.contains_key(current.name),
    ensures
        analyse(book, current).1 is Some <==> book[current.name].status != current.status,
        analyse(book, current).1 is Some ==> analyse(book, current).1 == Some(
            StateChangeView {
                previous_status: Some(book[current.name]),
                current_status: current,
            },
        ),
{
}

/// A status that repeats the status field of the one before it on the same
/// check raises no alert, whatever else it changes.
pub proof fn law_repeated_status_is_silent(
    book: Map<Seq<char>, StatusView>,
    first: StatusView,
    second: StatusView,
)
    requires
        first.name == second.name,
        first.status == second.status,
    ensures
        analyse(analyse(book, first).0, second).1 is None,
{
}

/// Handling the very same status twice raises no alert the second time.
pub proof fn law_handling_is_idempotent(book: Map<Seq<char>, StatusView>, current: StatusView)
    ensures
        analyse(analyse(book, current).0, current).0 == analyse(book, current).0,
        analyse(analyse(book, current).0, current).1 is None,
{
    assert(analyse(analyse(book, current).0, current).0 =~= analyse(book, current).0);
}

/// A status that differs from the one before it on the same check raises an
/// alert that names that one as the previous status.
pub proof fn law_change_names_previous(
    book: Map<Seq<char>, StatusView>,
    first: StatusView,
    second: StatusView,
)
    requires
        first.name == second.name,
        first.status != second.status,
    ensures
        analyse(analyse(book, first).0, second).1 == Some(
            StateChangeView { previous_status: Some(first), current_status: second },
        ),
{
}

/// In a book where every status is filed under its own check, handling keeps
/// it so, and every alert is about the incoming status, with a previous
/// status (if any) on the same check and with a different status field.
pub proof fn law_alerts_are_well_formed(book: Map<Seq<char>, StatusView>, current: StatusView)
    requires
        well_keyed(book),
    ensures
        well_keyed(analyse(book, current).0),
        analyse(book, current).1 matches Some(change) ==> {
            &&& change.current_status == current
            &&& change.previous_status matches Some(p) ==> p.name == current.name && p.status
                != current.status
        },
{
}

/// The analyser run over a sequence of reports, from `book`: the final book
/// and the alerts raised, in order.
pub open spec fn analyse_all(book: Map<Seq<char>, StatusView>, reports: Seq<StatusView>) -> (Map<Seq<char>, StatusView>, Seq<StateChangeView>)
    decreases reports.len(),
{
    if reports.len() == 0 {
        (book, Seq::empty())
    } else {
        let before = analyse_all(book, reports.drop_last());
        let step = analyse(before.0, reports.last());
        (
            step.0,
            match step.1 {
                Some(change) => before.1.push(change),
                None => before.1,
            },
        )
    }
}

/// The last of `reports` on the check called `name`, if any.
pub open spec fn last_report(reports: Seq<StatusView>, name: Seq<char>) -> Option<StatusView>
    decreases reports.len(),
{
    if reports.len() == 0 {
        None
    } else if reports.last().name == name {
        Some(reports.last())
    } else {
        last_report(reports.drop_last(), name)
    }
}

/// After any run of reports, what is known of a check is the last report on
/// it in the run, or, if the run has none, what was known before.
pub proof fn law_last_report_wins(
    book: Map<Seq<char>, StatusView>,
    reports: Seq<StatusView>,
    name: Seq<char>,
)
    ensures
        last_known(analyse_all(book, reports).0, name) == match last_report(reports, name) {
            Some(s) => Some(s),
            None => last_known(book, name),
        },
    decreases reports.len(),
{
    if reports.len() > 0 {
        law_last_report_wins(book, reports.drop_last(), name);
    }
}

/// A run raises at most one alert per report.
pub proof fn law_at_most_one_alert_per_report(
    book: Map<Seq<char>, StatusView>,
    reports: Seq<StatusView>,
)
    ensures
        analyse_all(book, reports).1.len() <= reports.len(),
    decreases reports.len(),
{
    if reports.len() > 0 {
        law_at_most_one_alert_per_report(book, reports.drop_last());
    }
}

/// The last known status of the check of the `i`-th report of a run from
/// `book`, as that report arrives: the last earlier report on the same check
/// in the run, or, if there is none, what `book` knew of it.
pub open spec fn status_before(book: Map<Seq<char>, StatusView>, reports: Seq<StatusView>, i: int) -> Option<StatusView> {
    match last_report(reports.take(i), reports[i].name) {
        Some(s) => Some(s),
        None => last_known(book, reports[i].name),
    }
}

/// The alert raised by the `i`-th report of a run from `book`.
pub open spec fn step_alert(book: Map<Seq<char>, StatusView>, reports: Seq<StatusView>, i: int) -> Option<StateChangeView> {
    analyse(analyse_all(book, reports.take(i)).0, reports[i]).1
}

/// In a run of reports from `book` (one `AlertAnalyser::handle` call per
/// report), the `i`-th report raises the alert owed against the last earlier
/// report on the same check (or, if there is none, against what `book`
/// knew), and the alerts of the run so far are those of the earlier reports
/// followed by that one, if any.
pub proof fn law_each_step_alerts_from_last_earlier_report(
    book: Map<Seq<char>, StatusView>,
    reports: Seq<StatusView>,
    i: int,
)
    requires
        0 <= i < reports.len(),
    ensures
        step_alert(book, reports, i) == alert_for(status_before(book, reports, i), reports[i]),
        analyse_all(book, reports.take(i + 1)).0 == analyse(analyse_all(book, reports.take(i)).0, reports[i]).0,
        analyse_all(book, reports.take(i + 1)).1 == match step_alert(book, reports, i) {
            Some(change) => analyse_all(book, reports.take(i)).1.push(change),
            None => analyse_all(book, reports.take(i)).1,
        },
{
    law_last_report_wins(book, reports.take(i), reports[i].name);
    assert(reports.take(i + 1).drop_last() =~= reports.take(i));
    assert(reports.take(i + 1).last() == reports[i]);
}

/// The view of an optional outgoing alert message.
pub open spec fn alert_view(alert: Option<TxMessage<StateChange>>) -> Option<StateChangeView> {
    match alert {
        Some(m) => Some(m.msg@),
        None => None,
    }
}

/// What kind of change an incoming status is, against the last known one.
enum InternalState {
    New,
    Changed { previous: Status },
    Unchanged,
}

/// Tracks the last known status of every check and decides which incoming
/// statuses become alerts for the `R`s that are to receive them.
pub struct AlertAnalyser<R> {
    state_change_recipients: Vec<R>,
    statuses: StatusBook,
}

impl<R> AlertAnalyser<R> {
    /// The last known status of each check.
    pub closed spec fn known(&self) -> Map<Seq<char>, StatusView> {
        self.statuses.known()
    }

    /// Those who receive every alert, in order.
    pub closed spec fn recipients(&self) -> Seq<R> {
        self.state_change_recipients@
    }

    /// An analyser that knows no status yet.
    pub fn new(state_change_recipients: Vec<R>) -> (analyser: Self)
        ensures
            analyser.known() == Map::<Seq<char>, StatusView>::empty(),
            analyser.recipients() == state_change_recipients@,
    {
        Self { state_change_recipients, statuses: StatusBook::new() }
    }

    /// Those who receive every alert.
    pub fn state_change_recipients(&self) -> (r: &Vec<R>)
        ensures
            r@ == self.recipients(),
    {
        &self.state_change_recipients
    }

    /// Files the incoming status as the last known one of its check and
    /// returns the alert it causes, under the incoming transaction id, to be
    /// delivered to each of the recipients.
    pub fn handle(&mut self, msg: TxMessage<Status>) -> (alert: Option<TxMessage<StateChange>>)
        ensures
            final(self).known() == analyse(old(self).known(), msg.msg@).0,
            alert_view(alert) == analyse(old(self).known(), msg.msg@).1,
            alert matches Some(m) ==> m.id@ == msg.id@,
            final(self).recipients() == old(self).recipients(),
            well_keyed(final(self).known()),
    {
        let current_status = msg.msg.clone();
        let TxMessage { msg: incoming, id } = msg;
        let ghost name = incoming@.name;
        let previous = self.statuses.record(incoming);
        proof {
            self.statuses.lemma_well_keyed();
        }
        let change = match previous {
            None => InternalState::New,
            Some(status) => {
                if status.status != current_status.status {
                    InternalState::Changed { previous: status }
                } else {
                    InternalState::Unchanged
                }
            },
        };
        let status_change_msg = match change {
            InternalState::New => StateChange { previous_status: None, current_status },
            InternalState::Changed { previous } => StateChange {
                previous_status: Some(previous),
                current_status,
            },
            InternalState::Unchanged => return None,
        };
        Some(TxMessage { msg: status_change_msg, id })
    }
}

} // verus!

use vstd::prelude::*;

use std::sync::mpsc::{Receiver, Sender};
use std::sync::Arc;

use vstd::rwlock::{RwLock, RwLockPredicate};

use crate::clock::Moment;
use crate::config::{ReminderConfig, Settings};
use crate::runtime::SchedulerRuntime;
use crate::scheduler::ControlMessage;
use crate::snapshot::RestReminderSnapshot;

verus! {

#[verifier::external_type_specification]
#[verifier::external_body]
#[verifier::reject_recursive_types(T)]
pub struct ExSender<T>(Sender<T>);

#[verifier::external_type_specification]
#[verifier::external_body]
#[verifier::reject_recursive_types(T)]
pub struct ExReceiver<T>(Receiver<T>);

/// The rule every snapshot in the shared lock keeps: its fields agree.
pub struct ConsistentSnapshot;

impl RwLockPredicate<RestReminderSnapshot> for ConsistentSnapshot {
    open spec fn inv(self, snapshot: RestReminderSnapshot) -> bool {
        snapshot@.is_consistent()
    }
}

/// The lock through which the scheduler thread shares its latest snapshot.
pub type SharedSnapshot = RwLock<RestReminderSnapshot, ConsistentSnapshot>;

/// `std::sync::mpsc::channel`: a new channel from the controller to the
/// scheduler thread. Nothing is claimed of the two ends.
#[verifier::external_body]
fn open_channel() -> (Sender<ControlMessage>, Receiver<ControlMessage>) {
    std::sync::mpsc::channel()
}

/// `Arc::clone`: a second handle to the same shared snapshot lock. Claims that
/// the handle equals the one it was made from (both point at the same lock).
#[verifier::external_body]
fn share_snapshot_lock(shared: &Arc<SharedSnapshot>) -> (handle: Arc<SharedSnapshot>)
    ensures
        handle == *shared,
{
    Arc::clone(shared)
}

/// `Sender::send`: hands `msg` to the scheduler thread. A failed send (the
/// scheduler has stopped) is dropped, as the application does; nothing is claimed.
#[verifier::external_body]
fn send_control(tx: &Sender<ControlMessage>, msg: ControlMessage) {
    let _ = tx.send(msg);
}

/// A copy of the snapshot in the shared lock.
pub fn load_snapshot(shared: &SharedSnapshot) -> (snapshot: RestReminderSnapshot)
    ensures
        snapshot@.is_consistent(),
{
    let handle = shared.acquire_read();
    let snapshot = handle.borrow().duplicate();
    handle.release_read();
    snapshot
}

/// Puts `snapshot` in the shared lock in place of the one there.
pub fn store_snapshot(shared: &SharedSnapshot, snapshot: RestReminderSnapshot)
    requires
        snapshot@.is_consistent(),
{
    let (_previous, handle) = shared.acquire_write();
    handle.release_write(snapshot);
}

/// What the scheduler thread needs: the receiving end of the control
/// channel, the shared snapshot and the configuration to start with.
pub struct SchedulerEndpoint {
    pub inbox: Receiver<ControlMessage>,
    pub shared: Arc<SharedSnapshot>,
    pub initial_config: ReminderConfig,
}

/// Records a freshly taken snapshot as the last published one. Returns it for
/// announcement when it differs from the previous one, and nothing (leaving
/// the record alone) when it shows the same.
pub fn record_publication(
    last_published: &mut Option<RestReminderSnapshot>,
    snapshot: RestReminderSnapshot,
) -> (announce: Option<RestReminderSnapshot>)
    ensures
        (match *old(last_published) {
            Some(prev) => prev@ == snapshot@,
            None => false,
        }) ==> announce is None && *final(last_published) == *old(last_published),
        !(match *old(last_published) {
            Some(prev) => prev@ == snapshot@,
            None => false,
        }) ==> (announce matches Some(a) && a@ == snapshot@) && (*final(last_published) matches Some(
            l,
        ) && l@ == snapshot@),
{
    let unchanged = match last_published {
        Some(prev) => prev.same_as(&snapshot),
        None => false,
    };
    if unchanged {
        return None;
    }
    let announced = snapshot.duplicate();
    *last_published = Some(snapshot);
    Some(announced)
}

impl SchedulerRuntime {
    /// Writes the snapshot at `now` to `shared` and records it; returns it
    /// when it differs from the last one announced.
    pub fn publish_state_at(
        &self,
        now: Moment,
        shared: &Arc<SharedSnapshot>,
        last_published: &mut Option<RestReminderSnapshot>,
    ) -> (announce: Option<RestReminderSnapshot>)
        ensures
            (match *old(last_published) {
                Some(prev) => prev@ == self.snapshot_view(now),
                None => false,
            }) ==> announce is None && *final(last_published) == *old(last_published),
            !(match *old(last_published) {
                Some(prev) => prev@ == self.snapshot_view(now),
                None => false,
            }) ==> (announce matches Some(a) && a@ == self.snapshot_view(now)) && (
            *final(last_published) matches Some(l) && l@ == self.snapshot_view(now)),
    {
        let snapshot = self.snapshot_at(now);
        store_snapshot(shared, snapshot.duplicate());
        record_publication(last_published, snapshot)
    }

    /// Writes the current snapshot to `shared` and records it; returns it when
    /// it differs from the last one announced.
    pub fn publish_state(
        &self,
        shared: &Arc<SharedSnapshot>,
        last_published: &mut Option<RestReminderSnapshot>,
    ) -> (announce: Option<RestReminderSnapshot>)
        ensures
            exists|now: Moment|
                now.is_clock_reading() && {
                    &&& (match *old(last_published) {
                        Some(prev) => prev@ == #[trigger] self.snapshot_view(now),
                        None => false,
                    }) ==> announce is None && *final(last_published) == *old(last_published)
                    &&& !(match *old(last_published) {
                        Some(prev) => prev@ == self.snapshot_view(now),
                        None => false,
                    }) ==> (announce matches Some(a) && a@ == self.snapshot_view(now)) && (
                    *final(last_published) matches Some(l) && l@ == self.snapshot_view(now))
                },
    {
        let now = self.clock.now();
        self.publish_state_at(now, shared, last_published)
    }
}

/// Background scheduler for periodic rest reminders, as seen by the rest of
/// the application: requests go to the scheduler thread over a channel, and
/// the latest snapshot is read from a shared lock.
pub struct RestReminderController {
    tx: Sender<ControlMessage>,
    shared: Arc<SharedSnapshot>,
}

impl RestReminderController {
    /// The controller reads the snapshot lock that `endpoint` hands to the scheduler thread.
    pub closed spec fn reads_from(&self, endpoint: SchedulerEndpoint) -> bool {
        self.shared == endpoint.shared
    }

    /// Sets up the controller for `settings`: the control channel, and the
    /// shared snapshot holding the initial one. Returns the controller and what
    /// the scheduler thread needs to run.
    pub fn new(settings: &Settings) -> (parts: (RestReminderController, SchedulerEndpoint))
        ensures
            parts.1.initial_config == ReminderConfig::from_settings_spec(*settings),
            parts.0.reads_from(parts.1),
    {
        let (tx, inbox) = open_channel();
        let initial_config = ReminderConfig::from_settings(settings);
        let shared = Arc::new(RwLock::new(RestReminderSnapshot::initial(&initial_config), Ghost(ConsistentSnapshot)));
        let thread_shared = share_snapshot_lock(&shared);
        (RestReminderController { tx, shared }, SchedulerEndpoint { inbox, shared: thread_shared, initial_config })
    }

    /// Asks the scheduler to take new settings.
    pub fn apply_settings(&self, settings: &Settings) {
        send_control(&self.tx, ControlMessage::ApplySettings(ReminderConfig::from_settings(settings)));
    }

    /// Tells the scheduler that a Pomodoro round started.
    pub fn pomodoro_started(&self) {
        send_control(&self.tx, ControlMessage::PomodoroStarted);
    }

    /// Tells the scheduler that no Pomodoro round runs any more.
    pub fn pomodoro_stopped(&self) {
        send_control(&self.tx, ControlMessage::PomodoroStopped);
    }

    /// Tells the scheduler that a Pomodoro work round was completed.
    pub fn pomodoro_work_completed(&self) {
        send_control(&self.tx, ControlMessage::PomodoroWorkCompleted);
    }

    /// Asks the scheduler to pause the countdown by hand.
    pub fn pause(&self) {
        send_control(&self.tx, ControlMessage::Pause);
    }

    /// Asks the scheduler to lift a manual pause.
    pub fn resume(&self) {
        send_control(&self.tx, ControlMessage::Resume);
    }

    /// Asks the scheduler to start the countdown afresh.
    pub fn reset(&self) {
        send_control(&self.tx, ControlMessage::Reset);
    }

    /// Asks the scheduler to show a short preview overlay.
    pub fn preview(&self) {
        send_control(&self.tx, ControlMessage::Preview);
    }

    /// Asks the scheduler to take a skippable overlay down.
    pub fn dismiss(&self) {
        send_control(&self.tx, ControlMessage::Dismiss);
    }

    /// The snapshot the scheduler last published.
    pub fn snapshot(&self) -> (snapshot: RestReminderSnapshot)
        ensures
            snapshot@.is_consistent(),
    {
        load_snapshot(&self.shared)
    }
}

} // verus!

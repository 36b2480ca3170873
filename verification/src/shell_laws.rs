//! What the small decisions around the prompt do: switches, the listening thread, and the place of
//! the window.

use vstd::prelude::*;

use crate::settings::StoredValue;
use crate::worker::{DetectorPoll, StopPoll, WorkerStep};

#[allow(unused_imports)]
use crate::placement::beside_main_window;
#[allow(unused_imports)]
use crate::settings::store_flag;
#[allow(unused_imports)]
use crate::worker::{keeps_running, worker_step};

verus! {

/// A switch is on exactly if the store holds a truth value for it and that is true: what is stored
/// as something else, or not at all, switches nothing on.
pub proof fn law_a_switch_is_on_only_if_stored_so(
    value: &StoredValue,
    truth: Option<bool>,
    on: bool,
    missing: bool,
)
    requires
        call_ensures(StoredValue::as_bool, (value,), truth),
        call_ensures(store_flag, (Some(*value),), on),
        call_ensures(store_flag, (None,), missing),
    ensures
        truth is Some <==> *value is Bool,
        *value matches StoredValue::Bool(stored) ==> truth == Some(stored),
        on <==> truth == Some(true),
        !missing,
{
}

/// The thread goes on exactly as long as it is neither told to stop nor left alone.
pub proof fn law_the_thread_goes_on_until_told(poll: StopPoll, goes_on: bool)
    requires
        call_ensures(keeps_running, (poll,), goes_on),
    ensures
        goes_on <==> poll != StopPoll::Stop && poll != StopPoll::Disconnected,
{
}

/// The thread ends exactly when the detector is gone; otherwise it polls the clock, and hands on
/// the report that came, unchanged, exactly if one came.
pub proof fn law_every_report_is_handed_on(poll: DetectorPoll, step: WorkerStep)
    requires
        call_ensures(worker_step, (poll,), step),
    ensures
        step is Exit <==> poll is Disconnected,
        step matches WorkerStep::Tick(report) ==> (report is Some <==> poll is State),
        step matches WorkerStep::Tick(Some(state)) ==> poll == DetectorPoll::State(state),
{
}

/// The window keeps the same distance, 20, from the corner of the main window both ways, wherever
/// that is.
pub proof fn law_the_window_keeps_its_distance(x: i32, y: i32, position: (i32, i32))
    requires
        call_ensures(beside_main_window, (x, y), position),
    ensures
        ({
            let (left, top) = position;
            left - x == 20 && top - y == 20
        }),
{
}

} // verus!

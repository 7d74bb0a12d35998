//! Which of the system's window events concern borders.

use vstd::prelude::*;

use crate::runtime_model::BorderWindowEvent;

verus! {

pub const EVENT_SYSTEM_FOREGROUND: u32 = 3;

pub const EVENT_SYSTEM_MINIMIZESTART: u32 = 22;

pub const EVENT_SYSTEM_MINIMIZEEND: u32 = 23;

pub const EVENT_OBJECT_DESTROY: u32 = 32769;

pub const EVENT_OBJECT_SHOW: u32 = 32770;

pub const EVENT_OBJECT_HIDE: u32 = 32771;

pub const EVENT_OBJECT_REORDER: u32 = 32772;

pub const EVENT_OBJECT_LOCATIONCHANGE: u32 = 32779;

pub const EVENT_OBJECT_CLOAKED: u32 = 32791;

pub const EVENT_OBJECT_UNCLOAKED: u32 = 32792;

pub const OBJID_WINDOW: i32 = 0;

pub const OBJID_CLIENT: i32 = -4;

pub const OBJID_CURSOR: i32 = -9;

pub const CHILDID_SELF: i32 = 0;

/// What to ask of the runtime because of an event.
#[derive(Debug, Clone, Copy, PartialEq, Eq, Structural)]
pub enum EventRequest {
    Ignore,
    WindowEvent(BorderWindowEvent),
    Reorder,
    /// Ask the system for the foreground window; the event's own window is the second guess.
    ForegroundChange,
    DestroyObserved,
}

pub open spec fn request_for(event: u32, id_object: i32, id_child: i32) -> EventRequest {
    let itself = id_child == CHILDID_SELF;
    let window = id_object == OBJID_WINDOW;
    if id_object == OBJID_CURSOR {
        EventRequest::Ignore
    } else if event == EVENT_OBJECT_LOCATIONCHANGE && itself {
        EventRequest::WindowEvent(BorderWindowEvent::LocationChange)
    } else if event == EVENT_OBJECT_REORDER && id_object == OBJID_CLIENT {
        EventRequest::Reorder
    } else if event == EVENT_SYSTEM_FOREGROUND {
        EventRequest::ForegroundChange
    } else if (event == EVENT_OBJECT_SHOW || event == EVENT_OBJECT_UNCLOAKED) && window {
        EventRequest::WindowEvent(BorderWindowEvent::ShowUncloaked)
    } else if (event == EVENT_OBJECT_HIDE || event == EVENT_OBJECT_CLOAKED) && window {
        EventRequest::WindowEvent(BorderWindowEvent::HideCloaked)
    } else if event == EVENT_SYSTEM_MINIMIZESTART {
        EventRequest::WindowEvent(BorderWindowEvent::MinimizeStart)
    } else if event == EVENT_SYSTEM_MINIMIZEEND {
        EventRequest::WindowEvent(BorderWindowEvent::MinimizeEnd)
    } else if event == EVENT_OBJECT_DESTROY && window && itself {
        EventRequest::DestroyObserved
    } else {
        EventRequest::Ignore
    }
}

/// What an event of the system comes to. The cursor moves all the time and is never of interest.
pub fn process_win_event(event: u32, id_object: i32, id_child: i32) -> (request: EventRequest)
    ensures
        request == request_for(event, id_object, id_child),
{
    if id_object == OBJID_CURSOR {
        return EventRequest::Ignore;
    }
    if event == EVENT_OBJECT_LOCATIONCHANGE {
        if id_child == CHILDID_SELF {
            return EventRequest::WindowEvent(BorderWindowEvent::LocationChange);
        }
    } else if event == EVENT_OBJECT_REORDER {
        if id_object == OBJID_CLIENT {
            return EventRequest::Reorder;
        }
    } else if event == EVENT_SYSTEM_FOREGROUND {
        return EventRequest::ForegroundChange;
    } else if event == EVENT_OBJECT_SHOW || event == EVENT_OBJECT_UNCLOAKED {
        if id_object == OBJID_WINDOW {
            return EventRequest::WindowEvent(BorderWindowEvent::ShowUncloaked);
        }
    } else if event == EVENT_OBJECT_HIDE || event == EVENT_OBJECT_CLOAKED {
        if id_object == OBJID_WINDOW {
            return EventRequest::WindowEvent(BorderWindowEvent::HideCloaked);
        }
    } else if event == EVENT_SYSTEM_MINIMIZESTART {
        return EventRequest::WindowEvent(BorderWindowEvent::MinimizeStart);
    } else if event == EVENT_SYSTEM_MINIMIZEEND {
        return EventRequest::WindowEvent(BorderWindowEvent::MinimizeEnd);
    } else if event == EVENT_OBJECT_DESTROY {
        if id_object == OBJID_WINDOW && id_child == CHILDID_SELF {
            return EventRequest::DestroyObserved;
        }
    }
    EventRequest::Ignore
}

/// Which events of the system come to what, and no others do. What happens to the cursor comes to
/// nothing.
pub proof fn law_events_come_to_what_they_report(event: u32, id_object: i32, id_child: i32)
    ensures
        ({
            let request = request_for(event, id_object, id_child);
            let cursor = id_object == -9;
            &&& cursor ==> request is Ignore
            &&& request is ForegroundChange <==> !cursor && event == 0x3
            &&& request is Reorder <==> event == 0x8004 && id_object == -4
            &&& request is DestroyObserved <==> event == 0x8001 && id_object == 0 && id_child == 0
            &&& request == EventRequest::WindowEvent(BorderWindowEvent::MinimizeStart) <==> !cursor
                && event == 0x16
            &&& request == EventRequest::WindowEvent(BorderWindowEvent::MinimizeEnd) <==> !cursor
                && event == 0x17
            &&& request == EventRequest::WindowEvent(BorderWindowEvent::LocationChange) <==> !cursor
                && event == 0x800b && id_child == 0
            &&& request == EventRequest::WindowEvent(BorderWindowEvent::ShowUncloaked) <==> (event
                == 0x8002 || event == 0x8018) && id_object == 0
            &&& request == EventRequest::WindowEvent(BorderWindowEvent::HideCloaked) <==> (event
                == 0x8003 || event == 0x8017) && id_object == 0
        }),
{
}

} // verus!

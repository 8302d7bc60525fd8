//! Descriptions of what an input or output device supports: the event codes
//! per event type and the absolute-axis ranges, plus the error type of the
//! device layer.

use vstd::prelude::*;

use crate::ec;
use crate::strutil;

verus! {

/// The range description of one absolute axis.
#[derive(Debug, Clone, Copy, PartialEq, Eq, Structural)]
pub struct EvdevAbsInfo {
    pub value: i32,
    pub minimum: i32,
    pub maximum: i32,
    pub fuzz: i32,
    pub flat: i32,
    pub resolution: i32,
}

impl EvdevAbsInfo {
    /// An all-zero axis description.
    pub fn new() -> (r: EvdevAbsInfo)
        ensures
            r == (EvdevAbsInfo {
                value: 0,
                minimum: 0,
                maximum: 0,
                fuzz: 0,
                flat: 0,
                resolution: 0,
            }),
    {
        EvdevAbsInfo { value: 0, minimum: 0, maximum: 0, fuzz: 0, flat: 0, resolution: 0 }
    }
}

/// The codes a device supports for one event type.
#[derive(Debug, Clone)]
pub struct EventCodes {
    pub event_type: ec::EventType,
    pub codes: Vec<i32>,
}

/// The axis description a device carries for one absolute-axis code.
#[derive(Debug, Clone)]
pub struct AbsInfoEntry {
    pub code: i32,
    pub info: EvdevAbsInfo,
}

/// The codes recorded for `t`, or nothing: the first entry for `t` decides.
pub open spec fn spec_codes_of(s: Seq<EventCodes>, t: ec::EventType) -> Option<Seq<i32>>
    decreases s.len(),
{
    if s.len() == 0 {
        None
    } else if s[0].event_type == t {
        Some(s[0].codes@)
    } else {
        spec_codes_of(s.drop_first(), t)
    }
}

proof fn lemma_codes_of_at(s: Seq<EventCodes>, t: ec::EventType, i: int)
    requires
        0 <= i < s.len(),
        s[i].event_type == t,
        forall|j: int| 0 <= j < i ==> s[j].event_type != t,
    ensures
        spec_codes_of(s, t) == Some(s[i].codes@),
    decreases i,
{
    if i > 0 {
        lemma_codes_of_at(s.drop_first(), t, i - 1);
    }
}

proof fn lemma_codes_of_none(s: Seq<EventCodes>, t: ec::EventType)
    requires
        forall|j: int| 0 <= j < s.len() ==> s[j].event_type != t,
    ensures
        spec_codes_of(s, t) is None,
    decreases s.len(),
{
    if s.len() > 0 {
        lemma_codes_of_none(s.drop_first(), t);
    }
}

proof fn lemma_codes_of_update(s: Seq<EventCodes>, i: int, x: EventCodes, t2: ec::EventType)
    requires
        0 <= i < s.len(),
        s[i].event_type == x.event_type,
        t2 != x.event_type,
    ensures
        spec_codes_of(s.update(i, x), t2) == spec_codes_of(s, t2),
    decreases i,
{
    let s2 = s.update(i, x);
    if i == 0 {
        assert(s2.drop_first() =~= s.drop_first());
    } else {
        assert(s2.drop_first() =~= s.drop_first().update(i - 1, x));
        lemma_codes_of_update(s.drop_first(), i - 1, x, t2);
    }
}

proof fn lemma_codes_of_push(s: Seq<EventCodes>, x: EventCodes, t2: ec::EventType)
    ensures
        spec_codes_of(s.push(x), t2) == (if spec_codes_of(s, t2) is Some {
            spec_codes_of(s, t2)
        } else if x.event_type == t2 {
            Some(x.codes@)
        } else {
            None::<Seq<i32>>
        }),
    decreases s.len(),
{
    if s.len() == 0 {
        assert(s.push(x)[0] == x);
        assert(s.push(x).drop_first() =~= Seq::<EventCodes>::empty());
    } else {
        assert(s.push(x).drop_first() =~= s.drop_first().push(x));
        lemma_codes_of_push(s.drop_first(), x, t2);
    }
}

/// What events a device supports: per event type the supported codes, and
/// per absolute axis its range.
#[derive(Debug, Clone)]
pub struct EventsDescriptor {
    pub events: Vec<EventCodes>,
    pub abs_info: Vec<AbsInfoEntry>,
}

impl EventsDescriptor {
    /// The codes recorded for event type `t`, or nothing.
    pub open spec fn spec_codes(&self, t: ec::EventType) -> Option<Seq<i32>> {
        spec_codes_of(self.events@, t)
    }

    /// A descriptor supporting nothing.
    pub fn new() -> (r: EventsDescriptor)
        ensures
            r.events@.len() == 0,
            r.abs_info@.len() == 0,
    {
        EventsDescriptor { events: Vec::new(), abs_info: Vec::new() }
    }

    /// True when the descriptor supports nothing at all.
    pub fn is_empty(&self) -> (r: bool)
        ensures
            r == (self.events@.len() == 0 && self.abs_info@.len() == 0),
    {
        self.events.len() == 0 && self.abs_info.len() == 0
    }

    /// Record `codes` as the supported set for `t`, replacing any previous
    /// entry for `t` and leaving every other event type unchanged.
    pub fn set_codes(&mut self, t: ec::EventType, codes: Vec<i32>)
        ensures
            final(self).spec_codes(t) == Some(codes@),
            forall|t2: ec::EventType|
                t2 != t ==> final(self).spec_codes(t2) == old(self).spec_codes(t2),
            final(self).abs_info@ == old(self).abs_info@,
    {
        let n = self.events.len();
        let mut i: usize = 0;
        while i < n
            invariant
                0 <= i <= n,
                n == self.events@.len(),
                *self == *old(self),
                forall|j: int| 0 <= j < i ==> self.events@[j].event_type != t,
            decreases n - i,
        {
            let cur = self.events[i].event_type;
            if cur.code() == t.code() {
                proof {
                    assert(cur == t) by {
                        if cur != t {
                            assert(ec::spec_type_code(cur) != ec::spec_type_code(t));
                        }
                    }
                }
                let ghost s = self.events@;
                self.events.set(i, EventCodes { event_type: t, codes });
                proof {
                    let x = self.events@[i as int];
                    lemma_codes_of_at(self.events@, t, i as int);
                    assert forall|t2: ec::EventType| t2 != t implies spec_codes_of(
                        self.events@,
                        t2,
                    ) == spec_codes_of(s, t2) by {
                        lemma_codes_of_update(s, i as int, x, t2);
                    }
                }
                return;
            }
            proof {
                assert(self.events@[i as int].event_type != t) by {
                    if self.events@[i as int].event_type == t {
                        assert(ec::spec_type_code(cur) == ec::spec_type_code(t));
                    }
                }
            }
            i = i + 1;
        }
        let ghost s = self.events@;
        self.events.push(EventCodes { event_type: t, codes });
        proof {
            let x = self.events@[s.len() as int];
            lemma_codes_of_none(s, t);
            lemma_codes_of_push(s, x, t);
            assert forall|t2: ec::EventType| t2 != t implies spec_codes_of(self.events@, t2)
                == spec_codes_of(s, t2) by {
                lemma_codes_of_push(s, x, t2);
            }
        }
    }

    /// A descriptor supporting every key code.
    pub fn with_all_key_events() -> (r: EventsDescriptor)
        ensures
            r.spec_codes(ec::EventType::EvKey) matches Some(codes) && codes.len() == ec::KEY_MAX
                + 1 && (forall|i: int| 0 <= i < codes.len() ==> codes[i] == i),
            r.abs_info@.len() == 0,
    {
        let mut ret = EventsDescriptor::new();
        ret.add_all_key_events();
        ret
    }

    /// Record every key code from 0 through `KEY_MAX` as supported.
    pub fn add_all_key_events(&mut self)
        ensures
            final(self).spec_codes(ec::EventType::EvKey) matches Some(codes) && codes.len()
                == ec::KEY_MAX + 1 && (forall|i: int| 0 <= i < codes.len() ==> codes[i] == i),
            forall|t2: ec::EventType|
                t2 != ec::EventType::EvKey ==> final(self).spec_codes(t2) == old(self).spec_codes(
                    t2,
                ),
            final(self).abs_info@ == old(self).abs_info@,
    {
        let all_keys = ec::all_key_codes();
        self.set_codes(ec::EventType::EvKey, all_keys);
    }

    /// A descriptor supporting the mouse buttons and relative axes.
    pub fn with_mouse_events() -> (r: EventsDescriptor)
        ensures
            r.spec_codes(ec::EventType::EvKey) == Some(spec_mouse_button_codes()),
            r.spec_codes(ec::EventType::EvRel) == Some(spec_mouse_rel_codes()),
            r.abs_info@.len() == 0,
    {
        let mut ret = EventsDescriptor::new();
        ret.add_mouse_events();
        ret
    }

    /// Record the mouse buttons and the relative axes as supported.
    pub fn add_mouse_events(&mut self)
        ensures
            final(self).spec_codes(ec::EventType::EvKey) == Some(spec_mouse_button_codes()),
            final(self).spec_codes(ec::EventType::EvRel) == Some(spec_mouse_rel_codes()),
            forall|t2: ec::EventType|
                t2 != ec::EventType::EvKey && t2 != ec::EventType::EvRel ==> final(self).spec_codes(
                    t2,
                ) == old(self).spec_codes(t2),
            final(self).abs_info@ == old(self).abs_info@,
    {
        let buttons = vec![
            ec::BTN_MOUSE,
            ec::BTN_LEFT,
            ec::BTN_MIDDLE,
            ec::BTN_RIGHT,
            ec::BTN_SIDE,
            ec::BTN_EXTRA,
            ec::BTN_BACK,
            ec::BTN_FORWARD,
        ];
        proof {
            assert(buttons@ =~= spec_mouse_button_codes());
        }
        self.set_codes(ec::EventType::EvKey, buttons);
        let axes = vec![
            ec::REL_X,
            ec::REL_Y,
            ec::REL_Z,
            ec::REL_RX,
            ec::REL_RY,
            ec::REL_RZ,
            ec::REL_WHEEL,
            ec::REL_HWHEEL,
            ec::REL_WHEEL_HI_RES,
            ec::REL_HWHEEL_HI_RES,
            ec::REL_MISC,
        ];
        proof {
            assert(axes@ =~= spec_mouse_rel_codes());
        }
        self.set_codes(ec::EventType::EvRel, axes);
    }
}

/// The mouse button codes a mouse output device supports.
pub open spec fn spec_mouse_button_codes() -> Seq<i32> {
    seq![
        ec::BTN_MOUSE,
        ec::BTN_LEFT,
        ec::BTN_MIDDLE,
        ec::BTN_RIGHT,
        ec::BTN_SIDE,
        ec::BTN_EXTRA,
        ec::BTN_BACK,
        ec::BTN_FORWARD,
    ]
}

/// The relative axis codes a mouse output device supports.
pub open spec fn spec_mouse_rel_codes() -> Seq<i32> {
    seq![
        ec::REL_X,
        ec::REL_Y,
        ec::REL_Z,
        ec::REL_RX,
        ec::REL_RY,
        ec::REL_RZ,
        ec::REL_WHEEL,
        ec::REL_HWHEEL,
        ec::REL_WHEEL_HI_RES,
        ec::REL_HWHEEL_HI_RES,
        ec::REL_MISC,
    ]
}

/// The errors of the device layer.
#[derive(Debug, Clone, Copy, PartialEq, Eq, Structural)]
pub enum EvdevError {
    /// Exclusive access to a device could not be acquired.
    DeviceGrabError,
    /// An OS call failed with the given error number.
    ErrnoError(i32),
    /// The OS dropped events internally and the stream lost synchronization.
    InternalEventDropped,
}

impl EvdevError {
    /// A human-readable description of the error.
    pub fn message(&self) -> (r: String)
        ensures
            r@ == match *self {
                EvdevError::DeviceGrabError => "Unable to grab device"@,
                EvdevError::ErrnoError(e) => "Errno error: "@ + strutil::spec_dec_int(e as int),
                EvdevError::InternalEventDropped => "InternalEventDropped"@,
            },
    {
        match self {
            EvdevError::DeviceGrabError => String::from_str("Unable to grab device"),
            EvdevError::ErrnoError(e) => {
                let mut out = String::from_str("Errno error: ");
                let num = strutil::i32_to_dec(*e);
                out.append(num.as_str());
                out
            },
            EvdevError::InternalEventDropped => String::from_str("InternalEventDropped"),
        }
    }
}

} // verus!

//! The configuration a remapper program hands to the session: its name, the
//! device selection patterns, and the behaviour switches, with the defaults
//! the session derives from them.

use vstd::prelude::*;

use crate::devices::EventsDescriptor;
use crate::devmatch::UINPUT_DEVICE_NAME_PREFIX;
use crate::ec;
use crate::strutil;

verus! {

/// True for the whitespace characters that are cleansed out of names.
pub open spec fn spec_is_space(c: char) -> bool {
    c == ' ' || c == '\t' || c == '\n' || c == '\r' || c == '\u{b}' || c == '\u{c}'
}

/// `s` from position `i` on with every run of whitespace replaced by one
/// underscore; `prev_space` tells whether a run is already open.
pub open spec fn spec_cleanse_from(s: Seq<char>, i: int, prev_space: bool) -> Seq<char>
    decreases s.len() - i,
{
    if i < 0 || i >= s.len() {
        Seq::empty()
    } else if spec_is_space(s[i]) {
        if prev_space {
            spec_cleanse_from(s, i + 1, true)
        } else {
            seq!['_'] + spec_cleanse_from(s, i + 1, true)
        }
    } else {
        seq![s[i]] + spec_cleanse_from(s, i + 1, false)
    }
}

/// `s` with every run of whitespace replaced by one underscore.
pub open spec fn spec_cleanse(s: Seq<char>) -> Seq<char> {
    spec_cleanse_from(s, 0, false)
}

fn is_space(c: char) -> (r: bool)
    ensures
        r == spec_is_space(c),
{
    c == ' ' || c == '\t' || c == '\n' || c == '\r' || c == '\u{b}' || c == '\u{c}'
}

/// Replace every run of whitespace in `s` by one underscore.
pub fn cleanse_name(s: &str) -> (r: String)
    ensures
        r@ == spec_cleanse(s@),
{
    let len = s.unicode_len();
    let mut out = String::new();
    let mut prev_space = false;
    let mut i: usize = 0;
    while i < len
        invariant
            0 <= i <= len,
            len == s@.len(),
            spec_cleanse(s@) == out@ + spec_cleanse_from(s@, i as int, prev_space),
        decreases len - i,
    {
        let c = s.get_char(i);
        if is_space(c) {
            if !prev_space {
                out.append("_");
                proof {
                    reveal_strlit("_");
                }
            }
            prev_space = true;
        } else {
            let one = s.substring_char(i, i + 1);
            proof {
                assert(one@ =~= seq![s@[i as int]]);
            }
            out.append(one);
            prev_space = false;
        }
        i = i + 1;
    }
    proof {
        assert(spec_cleanse_from(s@, len as int, prev_space) =~= Seq::<char>::empty());
        assert(out@ =~= out@ + Seq::<char>::empty());
    }
    out
}

/// Everything a remapper program configures about its session.
#[derive(Debug, Clone)]
pub struct KeyRemapperConfiguration {
    /// The human-visible name of this remapper instance.
    pub name: String,
    /// The path of the icon shown by the embedding user interface, if any.
    pub icon: Option<String>,
    /// Devices whose name matches this pattern are candidates.
    pub device_name_regex: String,
    /// Among the name matches, devices whose vendor/product id string
    /// matches this pattern must also look like keyboards.
    pub id_regex: String,
    /// Whether the embedding program shows a tray icon.
    pub use_system_tray: bool,
    /// Whether non-keyboard devices may join the session.
    pub use_non_keyboard: bool,
    /// Whether matched devices are grabbed for exclusive access.
    pub grab_devices: bool,
    /// Whether a primary output device is created.
    pub write_to_uinput: bool,
    /// The events the primary output device must support.
    pub uinput_events: EventsDescriptor,
    /// The name of the process-singleton lock.
    pub global_lock_name: String,
    /// The suffix appended to the output device name prefix.
    pub uinput_device_name_suffix: String,
    /// The full name prefix of this session's output devices.
    pub uinput_devices_prefix: String,
}

impl KeyRemapperConfiguration {
    /// A configuration with the defaults: tray on, non-keyboard devices
    /// allowed, devices grabbed, one output device, everything else empty.
    pub fn new(name: &str, device_name_regex: &str) -> (r: KeyRemapperConfiguration)
        ensures
            r.name@ == name@,
            r.icon is None,
            r.device_name_regex@ == device_name_regex@,
            r.id_regex@.len() == 0,
            r.use_system_tray == true,
            r.use_non_keyboard == true,
            r.grab_devices == true,
            r.write_to_uinput == true,
            r.uinput_events.events@.len() == 0,
            r.uinput_events.abs_info@.len() == 0,
            r.global_lock_name@.len() == 0,
            r.uinput_device_name_suffix@.len() == 0,
            r.uinput_devices_prefix@.len() == 0,
    {
        KeyRemapperConfiguration {
            name: String::from_str(name),
            icon: None,
            device_name_regex: String::from_str(device_name_regex),
            id_regex: String::new(),
            use_system_tray: true,
            use_non_keyboard: true,
            grab_devices: true,
            write_to_uinput: true,
            uinput_events: EventsDescriptor::new(),
            global_lock_name: String::new(),
            uinput_device_name_suffix: String::new(),
            uinput_devices_prefix: String::new(),
        }
    }

    /// Set the icon path.
    pub fn set_icon(&mut self, path: String)
        ensures
            *final(self) == (KeyRemapperConfiguration { icon: Some(path), ..*old(self) }),
    {
        self.icon = Some(path);
    }

    /// Set the device-name pattern.
    pub fn set_device_name_regex(&mut self, value: &str)
        ensures
            *final(self) == (KeyRemapperConfiguration {
                device_name_regex: final(self).device_name_regex,
                ..*old(self)
            }),
            final(self).device_name_regex@ == value@,
    {
        self.device_name_regex = String::from_str(value);
    }

    /// Set the vendor/product id pattern.
    pub fn set_id_regex(&mut self, value: &str)
        ensures
            *final(self) == (KeyRemapperConfiguration {
                id_regex: final(self).id_regex,
                ..*old(self)
            }),
            final(self).id_regex@ == value@,
    {
        self.id_regex = String::from_str(value);
    }

    /// Switch the tray icon on or off.
    pub fn set_use_system_tray(&mut self, value: bool)
        ensures
            *final(self) == (KeyRemapperConfiguration { use_system_tray: value, ..*old(self) }),
    {
        self.use_system_tray = value;
    }

    /// Switch exclusive grabbing on or off.
    pub fn set_grab(&mut self, value: bool)
        ensures
            *final(self) == (KeyRemapperConfiguration { grab_devices: value, ..*old(self) }),
    {
        self.grab_devices = value;
    }

    /// Switch creation of the primary output device on or off.
    pub fn set_write_to_uinput(&mut self, value: bool)
        ensures
            *final(self) == (KeyRemapperConfiguration { write_to_uinput: value, ..*old(self) }),
    {
        self.write_to_uinput = value;
    }

    /// Set the events the primary output device must support.
    pub fn set_uinput_events(&mut self, events: EventsDescriptor)
        ensures
            *final(self) == (KeyRemapperConfiguration {
                uinput_events: final(self).uinput_events,
                ..*old(self)
            }),
            final(self).uinput_events == events,
    {
        self.uinput_events = events;
    }

    /// Allow or refuse non-keyboard devices.
    pub fn set_use_non_keyboard(&mut self, value: bool)
        ensures
            *final(self) == (KeyRemapperConfiguration { use_non_keyboard: value, ..*old(self) }),
    {
        self.use_non_keyboard = value;
    }

    /// Fill in everything left empty: the lock name and the output device
    /// name suffix from the cleansed instance name, the output name prefix
    /// from both, and a key-only event set for the output device.
    pub fn set_defaults(&mut self)
        ensures
            final(self).name == old(self).name,
            final(self).icon == old(self).icon,
            final(self).device_name_regex == old(self).device_name_regex,
            final(self).id_regex == old(self).id_regex,
            final(self).use_system_tray == old(self).use_system_tray,
            final(self).use_non_keyboard == old(self).use_non_keyboard,
            final(self).grab_devices == old(self).grab_devices,
            final(self).write_to_uinput == old(self).write_to_uinput,
            final(self).global_lock_name@ == if old(self).global_lock_name@.len() == 0 {
                spec_cleanse(old(self).name@)
            } else {
                old(self).global_lock_name@
            },
            final(self).uinput_device_name_suffix@ == if old(self).uinput_device_name_suffix@.len() == 0 {
                "-"@ + spec_cleanse(old(self).name@)
            } else {
                old(self).uinput_device_name_suffix@
            },
            final(self).uinput_devices_prefix@ == UINPUT_DEVICE_NAME_PREFIX@ + final(self).uinput_device_name_suffix@,
            old(self).uinput_events.events@.len() == 0 && old(self).uinput_events.abs_info@.len()
                == 0 ==> (final(self).uinput_events.spec_codes(ec::EventType::EvKey) matches Some(
                codes,
            ) && codes.len() == ec::KEY_MAX + 1),
            !(old(self).uinput_events.events@.len() == 0 && old(self).uinput_events.abs_info@.len()
                == 0) ==> final(self).uinput_events == old(self).uinput_events,
    {
        let name_cleansed = cleanse_name(self.name.as_str());
        if self.global_lock_name.as_str().unicode_len() == 0 {
            self.global_lock_name = name_cleansed.clone();
        }
        if self.uinput_device_name_suffix.as_str().unicode_len() == 0 {
            let mut suffix = String::from_str("-");
            suffix.append(name_cleansed.as_str());
            self.uinput_device_name_suffix = suffix;
        }
        let mut prefix = String::from_str(UINPUT_DEVICE_NAME_PREFIX);
        prefix.append(self.uinput_device_name_suffix.as_str());
        self.uinput_devices_prefix = prefix;
        if self.uinput_events.is_empty() {
            self.uinput_events = EventsDescriptor::with_all_key_events();
        }
    }
}

} // verus!

//! Brightness devices: construction from the contents of a device
//! directory's two value files, discovery over a list of candidate
//! directories, committed updates, and the console listing text.

use vstd::prelude::*;

use crate::utils::{
    dec_str, dec_val, parse_u64, parses_u64, strip_spec, strip_trailing_newline, u64_to_string,
};

verus! {

/// The failures the library distinguishes: a vanished device directory, an
/// unreadable or unwritable value file, malformed integer content, and the
/// two console-input rejections (malformed line, out-of-range index).
#[derive(Clone, Copy, Debug, PartialEq, Eq, Structural)]
pub enum LightError {
    NotFound,
    IOError,
    ParseError,
    BadInputFormat,
    BadIndex,
}

/// One brightness-capable device: the directory it lives in, the current
/// value mirrored from its `brightness` file at load time, and the ceiling
/// read once from its `max_brightness` file.
pub struct Controller {
    pub path: String,
    pub brightness: u64,
    pub max_brightness: u64,
}

/// Parses the full contents of a value file: one trailing `"\r\n"` or `"\n"`
/// is removed, and the rest must be a base-10 `u64` numeral.
pub fn parse_file_contents(contents: &str) -> (r: Result<u64, LightError>)
    ensures
        match r {
            Ok(v) => parses_u64(strip_spec(contents@)) && v == dec_val(strip_spec(contents@)),
            Err(e) => e == LightError::ParseError && !parses_u64(strip_spec(contents@)),
        },
{
    let stripped = strip_trailing_newline(contents);
    match parse_u64(stripped) {
        Some(v) => Ok(v),
        None => Err(LightError::ParseError),
    }
}

/// Whether a value file that was read as `f` (nothing, if the read itself
/// failed) holds a well-formed brightness value.
pub open spec fn reads_ok(f: Option<String>) -> bool {
    match f {
        Some(s) => parses_u64(strip_spec(s@)),
        None => false,
    }
}

/// The value such a file holds, once its trailing newline is stripped.
pub open spec fn read_val(f: Option<String>) -> int {
    match f {
        Some(s) => dec_val(strip_spec(s@)),
        None => 0,
    }
}

impl Controller {
    /// Builds a controller for the device directory at `controller_path`
    /// from what could be read of its two value files: `None` stands for a
    /// file that could not be read at all. Fails with `NotFound` when the
    /// directory does not exist, `IOError` when a file could not be read
    /// (the `brightness` file is considered first), and `ParseError` when a
    /// file's newline-stripped contents are not a base-10 `u64` numeral; it
    /// succeeds exactly when the directory exists and both files parse, and
    /// then mirrors the two parsed values.
    pub fn new(
        controller_path: String,
        path_exists: bool,
        brightness_file: Option<String>,
        max_brightness_file: Option<String>,
    ) -> (r: Result<Controller, LightError>)
        ensures
            r is Ok <==> path_exists && reads_ok(brightness_file) && reads_ok(
                max_brightness_file,
            ),
            r matches Ok(c) ==> c.path == controller_path && c.brightness == read_val(
                brightness_file,
            ) && c.max_brightness == read_val(max_brightness_file),
            !path_exists ==> r == Err::<Controller, LightError>(LightError::NotFound),
            path_exists && brightness_file is None ==> r == Err::<Controller, LightError>(
                LightError::IOError,
            ),
            path_exists && (brightness_file matches Some(b) && !parses_u64(strip_spec(b@)))
                ==> r == Err::<Controller, LightError>(LightError::ParseError),
            path_exists && reads_ok(brightness_file) && max_brightness_file is None ==> r
                == Err::<Controller, LightError>(LightError::IOError),
            path_exists && reads_ok(brightness_file) && (max_brightness_file matches Some(m)
                && !parses_u64(strip_spec(m@))) ==> r == Err::<Controller, LightError>(
                LightError::ParseError,
            ),
    {
        if !path_exists {
            return Err(LightError::NotFound);
        }
        let actual_brightness = match &brightness_file {
            Some(contents) => match parse_file_contents(contents.as_str()) {
                Ok(v) => v,
                Err(e) => {
                    return Err(e);
                },
            },
            None => {
                return Err(LightError::IOError);
            },
        };
        let max_brightness = match &max_brightness_file {
            Some(contents) => match parse_file_contents(contents.as_str()) {
                Ok(v) => v,
                Err(e) => {
                    return Err(e);
                },
            },
            None => {
                return Err(LightError::IOError);
            },
        };
        Ok(
            Controller {
                path: controller_path,
                brightness: actual_brightness,
                max_brightness,
            },
        )
    }
}

/// Commits a brightness update: the caller writes the decimal string for
/// `new_brightness` to the device's `brightness` file first and reports the
/// outcome in `write_done`. Only a successful write updates the mirrored
/// value; a failed one leaves the controller untouched and surfaces
/// `IOError`, so the field never diverges from a write that did not happen.
pub fn update_controller(c: &mut Controller, new_brightness: u64, write_done: bool) -> (r: Result<
    (),
    LightError,
>)
    ensures
        write_done ==> *final(c) == (Controller {
            path: old(c).path,
            brightness: new_brightness,
            max_brightness: old(c).max_brightness,
        }) && r is Ok,
        !write_done ==> *final(c) == *old(c) && r == Err::<(), LightError>(LightError::IOError),
{
    if write_done {
        c.brightness = new_brightness;
        Ok(())
    } else {
        Err(LightError::IOError)
    }
}

/// What one candidate directory looked like when the caller scanned it:
/// whether it existed, and the raw contents of its two value files (`None`
/// where the read failed).
pub struct DeviceEntry {
    pub path: String,
    pub exists: bool,
    pub brightness_file: Option<String>,
    pub max_brightness_file: Option<String>,
}

/// Whether `Controller::new` succeeds on this entry.
pub open spec fn entry_ok(e: DeviceEntry) -> bool {
    e.exists && reads_ok(e.brightness_file) && reads_ok(e.max_brightness_file)
}

/// The controller that `Controller::new` yields on a well-formed entry.
pub open spec fn controller_of(e: DeviceEntry) -> Controller {
    Controller {
        path: e.path,
        brightness: read_val(e.brightness_file) as u64,
        max_brightness: read_val(e.max_brightness_file) as u64,
    }
}

/// The controllers a sequence of scanned entries yields, in scan order:
/// one per well-formed entry, the rest skipped silently.
pub open spec fn discovered(entries: Seq<DeviceEntry>) -> Seq<Controller>
    decreases entries.len(),
{
    if entries.len() == 0 {
        Seq::empty()
    } else if entry_ok(entries.last()) {
        discovered(entries.drop_last()).push(controller_of(entries.last()))
    } else {
        discovered(entries.drop_last())
    }
}

/// Builds one controller per entry that parses, in order, skipping every
/// failing entry with no effect on its siblings; an empty result is valid
/// and no error ever escapes.
pub fn discover_controllers(entries: Vec<DeviceEntry>) -> (r: Vec<Controller>)
    ensures
        r@ == discovered(entries@),
{
    let mut controllers: Vec<Controller> = Vec::new();
    let mut i: usize = 0;
    while i < entries.len()
        invariant
            i <= entries@.len(),
            controllers@ == discovered(entries@.take(i as int)),
        decreases entries@.len() - i,
    {
        let e = &entries[i];
        let brightness_file: Option<String> = match &e.brightness_file {
            Some(s) => Some(s.clone()),
            None => None,
        };
        let max_brightness_file: Option<String> = match &e.max_brightness_file {
            Some(s) => Some(s.clone()),
            None => None,
        };
        proof {
            assert(brightness_file == e.brightness_file);
            assert(max_brightness_file == e.max_brightness_file);
            assert(entries@.take(i as int + 1).drop_last() =~= entries@.take(i as int));
            assert(entries@.take(i as int + 1).last() == entries@[i as int]);
        }
        match Controller::new(e.path.clone(), e.exists, brightness_file, max_brightness_file) {
            Ok(c) => {
                controllers.push(c);
                proof {
                    assert(c == controller_of(entries@[i as int]));
                }
            },
            Err(_) => {},
        }
        i = i + 1;
    }
    proof {
        assert(entries@.take(entries@.len() as int) =~= entries@);
    }
    controllers
}

/// A malformed entry anywhere in the scan contributes nothing and leaves
/// what its siblings contribute exactly as it would have been without it.
pub proof fn lemma_bad_entry_excluded(before: Seq<DeviceEntry>, e: DeviceEntry, after: Seq<
    DeviceEntry,
>)
    requires
        !entry_ok(e),
    ensures
        discovered(before + seq![e] + after) == discovered(before + after),
    decreases after.len(),
{
    if after.len() == 0 {
        assert((before + seq![e] + after).drop_last() =~= before);
        assert((before + seq![e] + after).last() == e);
        assert(before + after =~= before);
    } else {
        let whole = before + seq![e] + after;
        let shorter = before + seq![e] + after.drop_last();
        assert(whole.drop_last() =~= shorter);
        assert(whole.last() == after.last());
        let plain = before + after;
        assert(plain.drop_last() =~= before + after.drop_last());
        assert(plain.last() == after.last());
        lemma_bad_entry_excluded(before, e, after.drop_last());
    }
}

/// The text for one controller in the console listing body:
/// `<path> -> <brightness> / <max_brightness>`.
pub open spec fn controller_desc(c: Controller) -> Seq<char> {
    c.path@ + " -> "@ + dec_str(c.brightness as nat) + " / "@ + dec_str(c.max_brightness as nat)
}

/// The index prefix of a listing line: the index in decimal, padded with one
/// leading zero to at least two digits.
pub open spec fn index_padded(i: nat) -> Seq<char> {
    if i < 10 {
        seq!['0'] + dec_str(i)
    } else {
        dec_str(i)
    }
}

/// One full listing line: `[<two-digit index>] <description>`.
pub open spec fn listing_line(i: nat, c: Controller) -> Seq<char> {
    "["@ + index_padded(i) + "] "@ + controller_desc(c)
}

impl Controller {
    /// The description text shown for this controller, matching
    /// `controller_desc`.
    pub fn describe(&self) -> (r: String)
        ensures
            r@ == controller_desc(*self),
    {
        let mut r = self.path.clone();
        r.append(" -> ");
        let b = u64_to_string(self.brightness);
        r.append(b.as_str());
        r.append(" / ");
        let m = u64_to_string(self.max_brightness);
        r.append(m.as_str());
        proof {
            assert(r@ =~= controller_desc(*self));
        }
        r
    }
}

/// The console listing: one line per controller, in order, each line
/// matching `listing_line` for its position.
pub fn format_controllers(controllers: &Vec<Controller>) -> (r: Vec<String>)
    ensures
        r@.len() == controllers@.len(),
        forall|i: int|
            0 <= i < r@.len() ==> r@[i]@ == listing_line(i as nat, controllers@[i]),
{
    let mut lines: Vec<String> = Vec::new();
    let mut i: usize = 0;
    while i < controllers.len()
        invariant
            i <= controllers@.len(),
            lines@.len() == i,
            forall|j: int|
                0 <= j < i ==> lines@[j]@ == listing_line(j as nat, controllers@[j]),
        decreases controllers@.len() - i,
    {
        let mut line = String::from_str("[");
        if i < 10 {
            line.append("0");
        }
        let n = u64_to_string(i as u64);
        line.append(n.as_str());
        line.append("] ");
        let desc = controllers[i].describe();
        line.append(desc.as_str());
        proof {
            reveal_strlit("[");
            reveal_strlit("0");
            reveal_strlit("] ");
            assert(line@ =~= listing_line(i as nat, controllers@[i as int]));
        }
        lines.push(line);
        i = i + 1;
    }
    lines
}

} // verus!

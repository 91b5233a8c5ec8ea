//! Errors reported by the daemon, and the choice of the backlight device.

use vstd::prelude::*;

use crate::text::concat;

verus! {

/// The error a client receives when the daemon could not serve a request.
#[derive(Debug)]
pub enum WayDimAPIError {
    /// Something failed inside the daemon; the text says what.
    Internal(String),
}

impl WayDimAPIError {
    /// The text shown for this error.
    pub open spec fn spec_message(&self) -> Seq<char> {
        match self {
            WayDimAPIError::Internal(detail) => "Internal daemon error: "@ + detail@,
        }
    }

    /// Renders the error as the daemon shows it to users.
    pub fn message(&self) -> (m: String)
        ensures
            m@ == self.spec_message(),
            self matches WayDimAPIError::Internal(detail) ==> m@ == "Internal daemon error: "@ + detail@,
    {
        match self {
            WayDimAPIError::Internal(detail) => concat("Internal daemon error: ", detail.as_str()),
        }
    }
}

/// The directory under which the kernel lists backlight devices.
pub open spec fn backlight_class_path() -> Seq<char> {
    "/sys/class/backlight"@
}

/// Returns the directory under which backlight devices are looked for.
pub fn backlight_class_dir() -> (p: String)
    ensures
        p@ == backlight_class_path(),
        p@ == "/sys/class/backlight"@,
{
    "/sys/class/backlight".to_owned()
}

/// Returns the name of the file a usable device exposes its current level in.
pub fn brightness_file_name() -> (n: String)
    ensures
        n@ == "brightness"@,
{
    "brightness".to_owned()
}

/// Returns the name of the file a usable device exposes its highest level in.
pub fn max_brightness_file_name() -> (n: String)
    ensures
        n@ == "max_brightness"@,
{
    "max_brightness".to_owned()
}

/// One entry of the backlight directory, with what was found inside it.
#[derive(Debug)]
pub struct BacklightCandidate {
    /// The device's directory.
    pub path: String,
    /// Whether the directory holds the current-level file.
    pub has_brightness: bool,
    /// Whether the directory holds the highest-level file.
    pub has_max_brightness: bool,
}

impl BacklightCandidate {
    /// A device can be driven when both of its level files exist.
    pub open spec fn usable(&self) -> bool {
        self.has_brightness && self.has_max_brightness
    }
}

/// Why no backlight device could be chosen.
#[derive(Debug)]
pub enum BacklightError {
    /// The backlight directory could not be listed; the text is the cause.
    ReadDir(String),
    /// No listed device has both level files.
    NoDevice,
}

impl BacklightError {
    /// The text shown for this error.
    pub open spec fn spec_message(&self) -> Seq<char> {
        match self {
            BacklightError::ReadDir(_) => "reading /sys/class/backlight"@,
            BacklightError::NoDevice => "no backlight device found under /sys/class/backlight"@,
        }
    }

    /// Renders the error as it is shown to users.
    pub fn message(&self) -> (m: String)
        ensures
            m@ == self.spec_message(),
            self is ReadDir ==> m@ == "reading /sys/class/backlight"@,
            self is NoDevice ==> m@ == "no backlight device found under /sys/class/backlight"@,
    {
        match self {
            BacklightError::ReadDir(_) => "reading /sys/class/backlight".to_owned(),
            BacklightError::NoDevice => "no backlight device found under /sys/class/backlight".to_owned(),
        }
    }
}

/// `i` is the position of the first usable device of `candidates`.
pub open spec fn is_first_usable(candidates: Seq<BacklightCandidate>, i: int) -> bool {
    &&& 0 <= i < candidates.len()
    &&& candidates[i].usable()
    &&& forall|j: int| 0 <= j < i ==> !(#[trigger] candidates[j]).usable()
}

/// What the choice among the listed devices `candidates` gives: the first
/// usable device, or no device when none is usable.
pub open spec fn usable_choice(candidates: Seq<BacklightCandidate>, r: Result<String, BacklightError>) -> bool {
    match r {
        Ok(path) => exists|i: int| #[trigger] is_first_usable(candidates, i) && path == candidates[i].path,
        Err(e) => {
            &&& e == BacklightError::NoDevice
            &&& forall|i: int| 0 <= i < candidates.len() ==> !(#[trigger] candidates[i]).usable()
        },
    }
}

/// What the choice of a device gives for a listing of the backlight
/// directory: the listing's failure, or the choice among the listed devices.
pub open spec fn backlight_choice(
    scan: Result<Vec<BacklightCandidate>, String>,
    r: Result<String, BacklightError>,
) -> bool {
    match scan {
        Err(cause) => r == Err::<String, BacklightError>(BacklightError::ReadDir(cause)),
        Ok(candidates) => usable_choice(candidates@, r),
    }
}

/// Chooses the first usable device of a listing of the backlight directory.
pub fn select_backlight(scan: Result<Vec<BacklightCandidate>, String>) -> (r: Result<
    String,
    BacklightError,
>)
    ensures
        backlight_choice(scan, r),
        scan matches Err(cause) ==> r == Err::<String, BacklightError>(BacklightError::ReadDir(cause)),
        scan matches Ok(listing) ==> (r matches Ok(path) ==> exists|i: int|
            0 <= i < listing@.len() && (#[trigger] listing@[i]).has_brightness
                && listing@[i].has_max_brightness && path == listing@[i].path
                && forall|j: int| 0 <= j < i ==> !((#[trigger] listing@[j]).has_brightness
                    && listing@[j].has_max_brightness)),
        scan matches Ok(listing) ==> (r matches Err(e) ==> e == BacklightError::NoDevice
            && forall|i: int| 0 <= i < listing@.len() ==> !((#[trigger] listing@[i]).has_brightness
                && listing@[i].has_max_brightness)),
{
    match scan {
        Err(cause) => Err(BacklightError::ReadDir(cause)),
        Ok(candidates) => {
            let n = candidates.len();
            let mut i: usize = 0;
            while i < n
                invariant
                    scan == Ok::<Vec<BacklightCandidate>, String>(candidates),
                    n == candidates@.len(),
                    0 <= i <= n,
                    forall|j: int| 0 <= j < i ==> !(#[trigger] candidates@[j]).usable(),
                decreases n - i,
            {
                if candidates[i].has_brightness && candidates[i].has_max_brightness {
                    let path = candidates[i].path.clone();
                    assert(is_first_usable(candidates@, i as int) && path == candidates@[i as int].path);
                    return Ok(path);
                }
                i = i + 1;
            }
            Err(BacklightError::NoDevice)
        },
    }
}

/// The device chosen from a listing is the first entry that has both level
/// files, whatever its path; no device is reported exactly when no entry has
/// both; and a failed listing is reported with its cause.
pub proof fn select_backlight_takes_first_with_both_files(
    scan: Result<Vec<BacklightCandidate>, String>,
    r: Result<String, BacklightError>,
)
    requires
        call_ensures(select_backlight, (scan,), r),
    ensures
        scan matches Err(cause) ==> r == Err::<String, BacklightError>(BacklightError::ReadDir(cause)),
        scan matches Ok(listing) ==> forall|i: int|
            0 <= i < listing@.len() && (#[trigger] listing@[i]).has_brightness
                && listing@[i].has_max_brightness
                && (forall|j: int| 0 <= j < i ==> !((#[trigger] listing@[j]).has_brightness
                    && listing@[j].has_max_brightness))
                ==> r == Ok::<String, BacklightError>(listing@[i].path),
        scan matches Ok(listing) ==> ((forall|i: int| 0 <= i < listing@.len()
            ==> !((#[trigger] listing@[i]).has_brightness && listing@[i].has_max_brightness))
            <==> r == Err::<String, BacklightError>(BacklightError::NoDevice)),
{
    if let Ok(listing) = scan {
        assert forall|i: int|
            0 <= i < listing@.len() && (#[trigger] listing@[i]).has_brightness
                && listing@[i].has_max_brightness
                && (forall|j: int| 0 <= j < i ==> !((#[trigger] listing@[j]).has_brightness
                    && listing@[j].has_max_brightness))
            implies r == Ok::<String, BacklightError>(listing@[i].path) by {
            if let Ok(path) = r {
                let k = choose|k: int|
                    0 <= k < listing@.len() && (#[trigger] listing@[k]).has_brightness
                        && listing@[k].has_max_brightness && path == listing@[k].path
                        && forall|j: int| 0 <= j < k ==> !((#[trigger] listing@[j]).has_brightness
                            && listing@[j].has_max_brightness);
                if k < i {
                    assert(listing@[k].has_brightness);
                } else if i < k {
                    assert(listing@[i].has_brightness);
                }
            } else {
                assert(listing@[i].has_brightness);
            }
        }
    }
}

/// Choosing the device without a named one gives exactly what choosing among
/// the listing gives, whatever the listing is.
pub proof fn find_backlight_defers_to_listing<F>(scan: F, r: Result<String, BacklightError>)
    where
        F: FnOnce() -> Result<Vec<BacklightCandidate>, String>,
    requires
        call_ensures(find_backlight::<F>, (None::<String>, scan), r),
    ensures
        exists|listing: Result<Vec<BacklightCandidate>, String>|
            call_ensures(scan, (), listing) && call_ensures(select_backlight, (listing,), r),
{
}

/// Chooses the backlight device to drive: the one named by the user when
/// there is one, without listing the directory; otherwise the first usable
/// device of the listing that `scan` makes.
pub fn find_backlight<F>(explicit: Option<String>, scan: F) -> (r: Result<String, BacklightError>)
    where
        F: FnOnce() -> Result<Vec<BacklightCandidate>, String>,
    requires
        explicit is None ==> call_requires(scan, ()),
    ensures
        explicit matches Some(path) ==> r == Ok::<String, BacklightError>(path),
        explicit is None ==> exists|listing: Result<Vec<BacklightCandidate>, String>|
            call_ensures(scan, (), listing) && backlight_choice(listing, r),
        explicit is None ==> exists|listing: Result<Vec<BacklightCandidate>, String>|
            call_ensures(scan, (), listing) && call_ensures(select_backlight, (listing,), r),
{
    match explicit {
        Some(path) => Ok(path),
        None => {
            let listing = scan();
            select_backlight(listing)
        },
    }
}

} // verus!

//! The serial monitor's settings and the small decisions behind its windows.

use vstd::prelude::*;

use crate::text::{replace_all, replace_str, strs, contains_seq, contains_str, int_decimal, usize_to_string, chars_of, string_from_chars, trim, trimmed};

verus! {

/// Whether a file dialog is open, and for what.
#[derive(Clone, Copy, Debug, PartialEq, Eq, Structural)]
pub enum FileDialogState {
    Save,
    NoDialog,
}

/// What a confirmation window answered.
#[derive(Clone, Copy, Debug, PartialEq, Eq, Structural)]
pub enum WindowFeedback {
    NoFeedback,
    Waiting,
    Clear,
    Cancel,
}

/// The direction of serial traffic.
#[derive(Clone, Copy, Debug, PartialEq, Eq, Structural)]
pub enum SerialDirection {
    Send,
    Receive,
}

impl SerialDirection {
    /// The text of this direction, as its `Display` writes it.
    pub open spec fn label(self) -> Seq<char> {
        match self {
            SerialDirection::Send => "SEND"@,
            SerialDirection::Receive => "RECV"@,
        }
    }

    /// The text of this direction, as its `Display` writes it.
    pub fn to_string(&self) -> (r: String)
        ensures
            r@ == self.label(),
    {
        match self {
            SerialDirection::Send => String::from_str("SEND"),
            SerialDirection::Receive => String::from_str("RECV"),
        }
    }
}

/// The options for saving the monitored data to a CSV file.
#[derive(Debug)]
pub struct FileOptions {
    pub file_path: String,
    pub save_absolute_time: bool,
    pub save_raw_traffic: bool,
    pub names: Vec<String>,
}

/// Which color-picker window is shown.
#[derive(Clone, Copy, Debug, PartialEq, Eq, Structural)]
pub enum ColorWindow {
    NoShow,
    ColorIndex(usize),
}

/// The file name under which the raw traffic is saved beside a CSV file:
/// the CSV file's name without its `.csv` parts, followed by `raw.csv`.
pub open spec fn raw_file_name_of(csv_name: Seq<char>) -> Seq<char> {
    replace_all(csv_name, ".csv"@, ""@) + "raw.csv"@
}

/// The file name of the raw traffic beside a CSV file.
pub fn raw_file_name(csv_name: &str) -> (r: String)
    ensures
        r@ == raw_file_name_of(csv_name@),
{
    proof {
        reveal_strlit(".csv");
    }
    let mut s = replace_str(csv_name, ".csv", "");
    s.append("raw.csv");
    s
}

/// The header of a CSV file of samples: the time column, then the name of
/// each data column.
pub fn csv_header(names: &Vec<String>) -> (r: Vec<String>)
    ensures
        strs(r@) == seq!["Time [ms]"@] + strs(names@),
{
    let mut r: Vec<String> = Vec::new();
    r.push(String::from_str("Time [ms]"));
    let mut i: usize = 0;
    while i < names.len()
        invariant
            i <= names.len(),
            strs(r@) == seq!["Time [ms]"@] + strs(names@).take(i as int),
        decreases names.len() - i,
    {
        let ghost before = r@;
        r.push(names[i].clone());
        proof {
            assert(strs(r@) =~= strs(before).push(names@[i as int]@));
            assert(strs(names@).take(i + 1) =~= strs(names@).take(i as int).push(names@[i as int]@));
        }
        i = i + 1;
    }
    assert(strs(names@).take(i as int) =~= strs(names@));
    r
}

/// The header of the CSV file of raw traffic.
pub fn raw_csv_header() -> (r: Vec<String>)
    ensures
        strs(r@) == seq!["Time [ms]"@, "Abs Time [ms]"@, "Raw Traffic"@],
{
    let mut r: Vec<String> = Vec::new();
    r.push(String::from_str("Time [ms]"));
    r.push(String::from_str("Abs Time [ms]"));
    r.push(String::from_str("Raw Traffic"));
    assert(strs(r@) =~= seq!["Time [ms]"@, "Abs Time [ms]"@, "Raw Traffic"@]);
    r
}

/// What a packet of values does to the data set of the serial monitor.
#[derive(Clone, Copy, Debug, PartialEq, Eq, Structural)]
pub enum DatasetStep {
    /// The data set starts over with this many (empty) columns.
    Reset { columns: usize },
    /// The values are appended to the columns, and the packet's times to
    /// the time columns.
    Append,
    /// The values are appended, but the time column then has another length
    /// than the data columns: the time column is emptied and the data set
    /// starts over with this many columns.
    AppendThenReset { columns: usize },
    /// The packet has another number of values than there are columns: it
    /// is dropped and counted as badly formatted.
    Mismatch,
}

/// The number of badly formatted packets after which the data set starts
/// over.
pub const MAX_FAILED_FORMATS: usize = 10;

/// Decides what a packet of `values` values does to a data set of `columns`
/// columns, whose time column holds `times` entries and whose first column
/// holds `first_column` entries, after `failed` badly formatted packets.
/// Returns the step and the new count of badly formatted packets.
pub fn dataset_step(columns: usize, times: usize, first_column: usize, failed: usize, values: usize) -> (r: (DatasetStep, usize))
    ensures
        r == (if columns == 0 || failed > MAX_FAILED_FORMATS {
            (DatasetStep::Reset { columns: if values > 1 { values } else { 1 } }, 0usize)
        } else if values == columns {
            if times != first_column {
                (DatasetStep::AppendThenReset { columns: if values > 1 { values } else { 1 } }, 0usize)
            } else {
                (DatasetStep::Append, 0usize)
            }
        } else {
            (DatasetStep::Mismatch, (failed + 1) as usize)
        }),
{
    let fresh = if values > 1 {
        values
    } else {
        1
    };
    if columns == 0 || failed > MAX_FAILED_FORMATS {
        (DatasetStep::Reset { columns: fresh }, 0)
    } else if values == columns {
        if times != first_column {
            (DatasetStep::AppendThenReset { columns: fresh }, 0)
        } else {
            (DatasetStep::Append, 0)
        }
    } else {
        (DatasetStep::Mismatch, failed + 1)
    }
}

/// Whether a character separates the values of a packet.
pub open spec fn is_value_separator(c: char) -> bool {
    c == ':' || c == ','
}

/// The pieces of a text between separators (`:` or `,`), empty pieces
/// included: `n` separators give `n + 1` pieces.
pub open spec fn split_values(s: Seq<char>) -> Seq<Seq<char>>
    decreases s.len(),
{
    if s.len() == 0 {
        seq![Seq::empty()]
    } else if is_value_separator(s.last()) {
        split_values(s.drop_last()).push(Seq::empty())
    } else {
        let f = split_values(s.drop_last());
        f.update(f.len() - 1, f.last().push(s.last()))
    }
}

/// A list of pieces is never empty.
proof fn lemma_split_values_len(s: Seq<char>)
    ensures
        split_values(s).len() >= 1,
    decreases s.len(),
{
    if s.len() > 0 {
        lemma_split_values_len(s.drop_last());
    }
}

/// The fields of a packet of the serial monitor: the pieces of its payload
/// between `:` and `,` separators, each without surrounding white space
/// (the values are then read from the fields that hold a number).
pub fn payload_fields(payload: &str) -> (r: Vec<String>)
    ensures
        strs(r@) == split_values(payload@).map_values(|f: Seq<char>| trimmed(f)),
{
    let v = chars_of(payload);
    let mut pieces: Vec<Vec<char>> = Vec::new();
    let mut cur: Vec<char> = Vec::new();
    let mut i: usize = 0;
    while i < v.len()
        invariant
            v@ == payload@,
            i <= v.len(),
            pieces@.map_values(|p: Vec<char>| p@).push(cur@) == split_values(v@.take(i as int)),
        decreases v.len() - i,
    {
        proof {
            let t = v@.take(i + 1);
            assert(t.drop_last() =~= v@.take(i as int));
            assert(t.last() == v@[i as int]);
            lemma_split_values_len(v@.take(i as int));
        }
        let c = v[i];
        if c == ':' || c == ',' {
            let ghost before = pieces@;
            let done = cur;
            pieces.push(done);
            cur = Vec::new();
            proof {
                assert(pieces@.map_values(|p: Vec<char>| p@) =~= before.map_values(|p: Vec<char>| p@).push(done@));
                assert(pieces@.map_values(|p: Vec<char>| p@).push(cur@) =~= before.map_values(
                    |p: Vec<char>| p@,
                ).push(done@).push(Seq::empty()));
            }
        } else {
            let ghost before = cur@;
            cur.push(c);
            proof {
                let f = split_values(v@.take(i as int));
                assert(pieces@.map_values(|p: Vec<char>| p@).push(cur@) =~= f.update(
                    f.len() - 1,
                    f.last().push(c),
                ));
            }
        }
        i = i + 1;
    }
    proof {
        assert(v@.take(i as int) =~= v@);
    }
    let ghost all = pieces@.map_values(|p: Vec<char>| p@).push(cur@);
    pieces.push(cur);
    assert(pieces@.map_values(|p: Vec<char>| p@) =~= all);
    let mut r: Vec<String> = Vec::new();
    let mut k: usize = 0;
    while k < pieces.len()
        invariant
            k <= pieces.len(),
            all == pieces@.map_values(|p: Vec<char>| p@),
            strs(r@) == all.take(k as int).map_values(|f: Seq<char>| trimmed(f)),
        decreases pieces.len() - k,
    {
        let text = string_from_chars(&pieces[k]);
        let t = trim(text.as_str());
        let ghost before = r@;
        r.push(t);
        proof {
            assert(all[k as int] == pieces@[k as int]@);
            assert(strs(r@) =~= strs(before).push(trimmed(all[k as int])));
            assert(all.take(k + 1).map_values(|f: Seq<char>| trimmed(f)) =~= all.take(
                k as int,
            ).map_values(|f: Seq<char>| trimmed(f)).push(trimmed(all[k as int])));
        }
        k = k + 1;
    }
    assert(all.take(k as int) =~= all);
    r
}

/// The serial devices the monitor knows, with the number of plots and the
/// plot labels of each (the three lists are kept side by side).
#[derive(Debug)]
pub struct SerialDevices {
    pub names: Vec<String>,
    pub number_of_plots: Vec<usize>,
    pub labels: Vec<Vec<String>>,
}

impl SerialDevices {
    /// The three lists have one entry per device.
    pub open spec fn wf(&self) -> bool {
        self.number_of_plots@.len() == self.names@.len() && self.labels@.len() == self.names@.len()
    }
}

/// Whether `i` is the last index of a device of the given name.
pub open spec fn last_device_index(names: Seq<String>, name: Seq<char>, i: int) -> bool {
    0 <= i < names.len() && names[i]@ == name && forall|j: int|
        i < j < names.len() ==> #[trigger] names[j]@ != name
}

/// What choosing another device in the list asks for: a confirmation when
/// data has been recorded (and the device chosen before is kept, to go back
/// to), else the change is carried out at once.
pub fn device_choice_feedback(old_name: &str, new_name: &str, has_data: bool) -> (r: WindowFeedback)
    ensures
        old_name@ == new_name@ ==> r == WindowFeedback::NoFeedback,
        old_name@ != new_name@ && has_data ==> r == WindowFeedback::Waiting,
        old_name@ != new_name@ && !has_data ==> r == WindowFeedback::Clear,
{
    if crate::text::str_eq(old_name, new_name) {
        WindowFeedback::NoFeedback
    } else if has_data {
        WindowFeedback::Waiting
    } else {
        WindowFeedback::Clear
    }
}

/// Carries out the choice of a device: a known device is selected (the last
/// one of that name); an unknown one is added, with one plot labelled
/// "Dataset 1", and selected. Returns the index of the selected device.
pub fn choose_device(devices: &mut SerialDevices, name: &str) -> (idx: usize)
    requires
        old(devices).wf(),
    ensures
        final(devices).wf(),
        idx < final(devices).names@.len(),
        final(devices).names@[idx as int]@ == name@,
        strs(old(devices).names@).contains(name@) ==> *final(devices) == *old(devices)
            && last_device_index(old(devices).names@, name@, idx as int),
        !strs(old(devices).names@).contains(name@) ==> idx == old(devices).names@.len()
            && strs(final(devices).names@) == strs(old(devices).names@).push(name@)
            && final(devices).number_of_plots@ == old(devices).number_of_plots@.push(1)
            && final(devices).labels@.len() == old(devices).labels@.len() + 1
            && final(devices).labels@.take(old(devices).labels@.len() as int)
            == old(devices).labels@
            && strs(final(devices).labels@.last()@) == seq!["Dataset 1"@],
{
    let mut found: Option<usize> = None;
    let mut i: usize = 0;
    while i < devices.names.len()
        invariant
            i <= devices.names@.len(),
            match found {
                Some(k) => k < i && devices.names@[k as int]@ == name@ && forall|j: int|
                    k < j < i ==> #[trigger] devices.names@[j]@ != name@,
                None => forall|j: int| 0 <= j < i ==> #[trigger] devices.names@[j]@ != name@,
            },
        decreases devices.names@.len() - i,
    {
        if crate::text::str_eq(devices.names[i].as_str(), name) {
            found = Some(i);
        }
        i = i + 1;
    }
    match found {
        Some(k) => {
            assert(strs(devices.names@)[k as int] == name@);
            k
        },
        None => {
            proof {
                if strs(devices.names@).contains(name@) {
                    let j = choose|j: int| 0 <= j < strs(devices.names@).len()
                        && strs(devices.names@)[j] == name@;
                    assert(devices.names@[j]@ == name@);
                }
            }
            let ghost before = *devices;
            devices.names.push(String::from_str(name));
            devices.number_of_plots.push(1);
            let mut label: Vec<String> = Vec::new();
            label.push(String::from_str("Dataset 1"));
            devices.labels.push(label);
            proof {
                assert(strs(devices.names@) =~= strs(before.names@).push(name@));
                assert(devices.labels@.take(before.labels@.len() as int) =~= before.labels@);
                assert(strs(devices.labels@.last()@) =~= seq!["Dataset 1"@]);
            }
            devices.names.len() - 1
        },
    }
}

/// The ports the device list offers, each with the text it shows: call-out
/// ports (`/dev/cu.`) are left out, and `/dev/tty.` is dropped from the
/// shown text.
pub open spec fn offered_ports(ports: Seq<String>) -> Seq<(Seq<char>, Seq<char>)>
    decreases ports.len(),
{
    if ports.len() == 0 {
        Seq::empty()
    } else if contains_seq(ports.last()@, "/dev/cu."@) {
        offered_ports(ports.drop_last())
    } else {
        offered_ports(ports.drop_last()).push(
            (ports.last()@, replace_all(ports.last()@, "/dev/tty."@, ""@)),
        )
    }
}

/// Lists the ports the device list offers, with their shown texts.
pub fn offer_ports(ports: &Vec<String>) -> (r: Vec<(String, String)>)
    ensures
        r@.map_values(|p: (String, String)| (p.0@, p.1@)) == offered_ports(ports@),
{
    proof {
        reveal_strlit("/dev/tty.");
    }
    let mut r: Vec<(String, String)> = Vec::new();
    let mut i: usize = 0;
    while i < ports.len()
        invariant
            i <= ports.len(),
            r@.map_values(|p: (String, String)| (p.0@, p.1@)) == offered_ports(ports@.take(i as int)),
        decreases ports.len() - i,
    {
        proof {
            let t = ports@.take(i + 1);
            assert(t.drop_last() =~= ports@.take(i as int));
            assert(t.last() == ports@[i as int]);
        }
        let p = ports[i].as_str();
        proof {
            reveal_strlit("/dev/tty.");
        }
        if !contains_str(p, "/dev/cu.") {
            let shown = replace_str(p, "/dev/tty.", "");
            let ghost before = r@;
            r.push((String::from_str(p), shown));
            proof {
                assert(r@.map_values(|p: (String, String)| (p.0@, p.1@)) =~= before.map_values(
                    |p: (String, String)| (p.0@, p.1@),
                ).push((ports@[i as int]@, replace_all(ports@[i as int]@, "/dev/tty."@, ""@))));
            }
        }
        i = i + 1;
    }
    assert(ports@.take(i as int) =~= ports@);
    r
}

/// The label of the `i`-th plot (counting from 0) and the index of its
/// colour among the ten plot colours.
pub fn plot_label(i: usize) -> (r: (String, usize))
    requires
        i < usize::MAX,
    ensures
        r.0@ == "Dataset "@ + int_decimal(i + 1),
        r.1 == i % 10,
{
    let mut s = String::from_str("Dataset ");
    s.append(usize_to_string(i + 1).as_str());
    (s, i % 10)
}

/// The system clock's reading, carried through opaque.
#[verifier::external_type_specification]
#[verifier::external_body]
pub struct ExSystemTime(std::time::SystemTime);

/// Reads the system clock (`std::time::SystemTime::now`).
#[verifier::external_body]
fn system_time_now() -> std::time::SystemTime {
    std::time::SystemTime::now()
}

/// The time elapsed since the Unix epoch, none when the clock reads an
/// earlier time (`SystemTime::duration_since`).
#[verifier::external_body]
fn since_unix_epoch(t: &std::time::SystemTime) -> Option<std::time::Duration> {
    t.duration_since(std::time::UNIX_EPOCH).ok()
}

/// The whole seconds of a duration (`Duration::as_secs`).
#[verifier::external_body]
fn duration_secs(d: &std::time::Duration) -> u64 {
    d.as_secs()
}

/// The nanoseconds of a duration beyond its whole seconds
/// (`Duration::subsec_nanos`); its documentation states that the value is
/// always less than one billion.
#[verifier::external_body]
fn duration_subsec_nanos(d: &std::time::Duration) -> (r: u32)
    ensures
        r < 1_000_000_000,
{
    d.subsec_nanos()
}

/// Whether a time elapsed since the Unix epoch, as whole seconds and the
/// nanoseconds beyond them, is well formed.
pub open spec fn elapsed_ok(elapsed: Option<(u64, u32)>) -> bool {
    elapsed matches Some((_, n)) ==> n < 1_000_000_000
}

/// The whole milliseconds of a time elapsed since the Unix epoch; 0 for a
/// clock that reads a time before the epoch.
pub open spec fn epoch_ms_spec(elapsed: Option<(u64, u32)>) -> u128 {
    match elapsed {
        Some((s, n)) => (s * 1000 + n / 1_000_000) as u128,
        None => 0,
    }
}

/// The whole milliseconds of a time elapsed since the Unix epoch, given as
/// whole seconds and the nanoseconds beyond them (none when the clock reads
/// a time before the epoch, which gives 0).
pub fn epoch_ms_of(elapsed: Option<(u64, u32)>) -> (r: u128)
    ensures
        r == epoch_ms_spec(elapsed),
{
    match elapsed {
        Some((s, n)) => (s as u128) * 1000 + (n as u128) / 1_000_000,
        None => 0,
    }
}

/// The time elapsed since the Unix epoch on the system clock, as whole
/// seconds and the nanoseconds beyond them; none when the clock reads an
/// earlier time.
fn elapsed_since_epoch() -> (r: Option<(u64, u32)>)
    ensures
        elapsed_ok(r),
{
    let now = system_time_now();
    match since_unix_epoch(&now) {
        Some(d) => Some((duration_secs(&d), duration_subsec_nanos(&d))),
        None => None,
    }
}

/// The current time in whole milliseconds since the Unix epoch, or 0 when
/// the clock reads a time before it. Which time the clock reads is not
/// stated; the result is the milliseconds of some well-formed elapsed time.
pub fn get_epoch_ms() -> (r: u128)
    ensures
        exists|e: Option<(u64, u32)>| elapsed_ok(e) && r == epoch_ms_spec(e),
{
    let e = elapsed_since_epoch();
    let r = epoch_ms_of(e);
    assert(elapsed_ok(e) && r == epoch_ms_spec(e));
    r
}

} // verus!

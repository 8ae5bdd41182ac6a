//! The decisions of one run, from the image check to the helper's exit.
//!
//! A `Session` never performs I/O itself: each call of `step` takes what the
//! last action brought back and says what to do next.
use vstd::prelude::*;
use crate::device::{UsbBlockDevice, RawEntry, removable_records, summary_text};
use crate::error::RunError;
use crate::resolve::physical_drive_for;
use crate::text::{decimal, parse_usize, index_value, push_all, push_char, push_decimal};

verus! {

/// How the platform names a disk that is to be written raw.
#[derive(Clone, Copy, Debug, PartialEq, Eq, Structural)]
pub enum Platform {
    /// The mount point reported for a disk is the path to write to.
    DevicePaths,
    /// Disks are mounted under drive letters; the path to write to is the
    /// physical drive that holds the letter.
    DriveLetters,
}

/// Where a run stands.
#[derive(Clone, Copy, Debug, PartialEq, Eq, Structural)]
pub enum Phase {
    CheckingImage,
    Enumerating,
    AwaitingInput,
    Resolving,
    Dispatching,
    Finished,
}

/// What the last action brought back.
#[derive(Debug)]
pub enum Event {
    /// Whether the image file exists.
    ImageChecked(bool),
    /// The disks the enumeration reported, or `None` when it could not run.
    Enumerated(Option<Vec<RawEntry>>),
    /// The operator's answer to the prompt.
    Answered(String),
    /// The drive-letter mapping text, or `None` when it could not be read.
    MappingRead(Option<String>),
    /// Whether the helper succeeded, or `None` when it could not be started.
    HelperExited(Option<bool>),
}

/// What to do next.
#[derive(Debug)]
pub enum Action {
    /// Check that the image file exists; answer with `ImageChecked`.
    CheckImage,
    /// Enumerate the disks; answer with `Enumerated`.
    Enumerate,
    /// Show these lines, ask for a selection; answer with `Answered`.
    Prompt(Vec<String>),
    /// Read the drive-letter mapping; answer with `MappingRead`.
    ReadMapping,
    /// Run this command line, program first, and wait; answer with `HelperExited`.
    Launch(Vec<String>),
    /// The image was written: exit with code 0.
    Succeed,
    /// Report the failure's message and exit with its code.
    Fail(RunError),
}

/// The command that runs a program with elevated rights, word by word.
pub open spec fn elevation(p: Platform) -> Seq<Seq<char>> {
    match p {
        Platform::DevicePaths => seq![seq!['s', 'u', 'd', 'o']],
        Platform::DriveLetters => seq![
            seq!['r', 'u', 'n', 'a', 's'],
            seq!['/', 'u', 's', 'e', 'r', ':', 'A', 'd', 'm', 'i', 'n', 'i', 's', 't', 'r', 'a', 't', 'o', 'r'],
        ],
    }
}

/// The command line that has the helper write `image` onto `address`.
pub open spec fn command_line(p: Platform, helper: Seq<char>, image: Seq<char>, address: Seq<char>) -> Seq<Seq<char>> {
    elevation(p) + seq![helper, image, address]
}

/// The characters of each string.
pub open spec fn string_views(v: Seq<String>) -> Seq<Seq<char>> {
    v.map_values(|s: String| s@)
}

/// The prompt line of the record at `index`.
pub open spec fn prompt_line(index: nat, d: UsbBlockDevice) -> Seq<char> {
    decimal(index) + seq![':', ' '] + summary_text(d)
}

/// The prompt lines of `ds`, one per record, in order.
pub open spec fn prompt_lines(ds: Seq<UsbBlockDevice>) -> Seq<Seq<char>> {
    Seq::new(ds.len(), |i: int| prompt_line(i as nat, ds[i]))
}

/// Does `e` answer what a session in phase `p` asked for?
pub open spec fn answers(p: Phase, e: Event) -> bool {
    match e {
        Event::ImageChecked(_) => p == Phase::CheckingImage,
        Event::Enumerated(_) => p == Phase::Enumerating,
        Event::Answered(_) => p == Phase::AwaitingInput,
        Event::MappingRead(_) => p == Phase::Resolving,
        Event::HelperExited(_) => p == Phase::Dispatching,
    }
}

/// Builds the command line that runs the helper on `address`.
pub fn build_command(p: Platform, helper: &String, image: &String, address: &String) -> (r: Vec<String>)
    ensures
        string_views(r@) == command_line(p, helper@, image@, address@),
{
    let mut r: Vec<String> = Vec::new();
    match p {
        Platform::DevicePaths => {
            let mut w = String::new();
            push_all(&mut w, &['s', 'u', 'd', 'o']);
            r.push(w);
        },
        Platform::DriveLetters => {
            let mut w = String::new();
            push_all(&mut w, &['r', 'u', 'n', 'a', 's']);
            r.push(w);
            let mut u = String::new();
            push_all(&mut u, &['/', 'u', 's', 'e', 'r', ':', 'A', 'd', 'm', 'i', 'n', 'i', 's', 't', 'r', 'a', 't', 'o', 'r']);
            r.push(u);
        },
    }
    r.push(helper.clone());
    r.push(image.clone());
    r.push(address.clone());
    assert(string_views(r@) =~= command_line(p, helper@, image@, address@));
    r
}

/// The numbered lines that present `devices` to the operator.
pub fn present(devices: &Vec<UsbBlockDevice>) -> (r: Vec<String>)
    ensures
        string_views(r@) == prompt_lines(devices@),
{
    let mut r: Vec<String> = Vec::new();
    let mut i: usize = 0;
    while i < devices.len()
        invariant
            i <= devices@.len(),
            r@.len() == i,
            string_views(r@) == prompt_lines(devices@.subrange(0, i as int)),
        decreases devices.len() - i,
    {
        let mut line = String::new();
        push_decimal(&mut line, i as u64);
        push_char(&mut line, ':');
        push_char(&mut line, ' ');
        let s = devices[i].summary();
        line.append(s.as_str());
        assert(line@ =~= prompt_line(i as nat, devices@[i as int]));
        let ghost before = r@;
        r.push(line);
        assert forall|k: int| 0 <= k < i + 1 implies #[trigger] string_views(r@)[k] == prompt_lines(
            devices@.subrange(0, i + 1),
        )[k] by {
            if k < i {
                assert(r@[k] == before[k]);
                assert(string_views(before)[k] == prompt_lines(devices@.subrange(0, i as int))[k]);
            }
        }
        assert(string_views(r@) =~= prompt_lines(devices@.subrange(0, i + 1)));
        i = i + 1;
    }
    assert(devices@.subrange(0, i as int) =~= devices@);
    r
}

/// A launch comes from `Resolving` on drive-letter platforms, where the
/// address must first be resolved, and from `AwaitingInput` elsewhere.
pub open spec fn launched_from(p: Platform, from: Phase) -> bool {
    if p == Platform::DriveLetters {
        from == Phase::Resolving
    } else {
        from == Phase::AwaitingInput
    }
}

/// `f` and `r` end the run with failure `e`.
pub open spec fn failed(f: Session, r: Action, e: RunError) -> bool {
    f.phase == Phase::Finished && r == Action::Fail(e)
}

/// `r` launches the helper on `address` for the run `o`.
pub open spec fn launches(o: Session, r: Action, address: Seq<char>) -> bool {
    r matches Action::Launch(args) && string_views(args@) == command_line(
        o.platform,
        o.helper@,
        o.image@,
        address,
    )
}

/// The outcome of the image check.
pub open spec fn after_image_check(f: Session, present: bool, r: Action) -> bool {
    if present {
        f.phase == Phase::Enumerating && r is Enumerate
    } else {
        failed(f, r, RunError::InputFileNotFound)
    }
}

/// The outcome of the enumeration.
pub open spec fn after_enumeration(f: Session, found: Option<Vec<RawEntry>>, r: Action) -> bool {
    match found {
        None => failed(f, r, RunError::EnumerationFailure),
        Some(entries) => f.devices@ == removable_records(entries@) && if f.devices@.len() == 0 {
            failed(f, r, RunError::NoDevicesFound)
        } else {
            f.phase == Phase::AwaitingInput && (r matches Action::Prompt(lines) && string_views(
                lines@,
            ) == prompt_lines(f.devices@))
        },
    }
}

/// The outcome of the operator's answer.
pub open spec fn after_answer(o: Session, f: Session, answer: String, r: Action) -> bool {
    f.devices == o.devices && match index_value(answer@) {
        None => failed(f, r, RunError::SelectionParseError),
        Some(v) => if v >= o.devices@.len() {
            failed(f, r, RunError::SelectionOutOfRange)
        } else if o.platform == Platform::DriveLetters {
            f.chosen == v && f.phase == Phase::Resolving && r is ReadMapping
        } else {
            f.chosen == v && f.phase == Phase::Dispatching && launches(
                o,
                r,
                o.devices@[v as int].raw_address@,
            )
        },
    }
}

/// The outcome of reading the drive-letter mapping: the chosen record's raw
/// address becomes the physical drive of its label, or the run fails.
pub open spec fn after_mapping(o: Session, f: Session, mapping: Option<String>, r: Action) -> bool {
    match mapping {
        None => failed(f, r, RunError::AddressResolutionFailure),
        Some(text) => match physical_drive_for(text@, o.devices@[o.chosen as int].display_label@) {
            None => failed(f, r, RunError::AddressResolutionFailure),
            Some(address) => {
                &&& f.phase == Phase::Dispatching
                &&& f.chosen == o.chosen
                &&& f.devices@.len() == o.devices@.len()
                &&& f.devices@[o.chosen as int].raw_address@ == address
                &&& f.devices@[o.chosen as int].display_label == o.devices@[o.chosen as int].display_label
                &&& launches(o, r, address)
            },
        },
    }
}

/// The outcome of the helper's run.
pub open spec fn after_helper(f: Session, status: Option<bool>, r: Action) -> bool {
    match status {
        None => failed(f, r, RunError::DispatchFailure),
        Some(ok) => if ok {
            f.phase == Phase::Finished && r is Succeed
        } else {
            failed(f, r, RunError::CopyFailure)
        },
    }
}

/// What one step from `o` with event `e` leads to.
pub open spec fn stepped(o: Session, f: Session, e: Event, r: Action) -> bool {
    match e {
        Event::ImageChecked(present) => after_image_check(f, present, r),
        Event::Enumerated(found) => after_enumeration(f, found, r),
        Event::Answered(answer) => after_answer(o, f, answer, r),
        Event::MappingRead(mapping) => after_mapping(o, f, mapping, r),
        Event::HelperExited(status) => after_helper(f, status, r),
    }
}

/// The image check comes before the enumeration: a step asks to enumerate
/// only on the news that the image exists, and the news that it is missing
/// ends the run at once with `InputFileNotFound`.
pub proof fn lemma_image_checked_before_enumeration(o: Session, f: Session, e: Event, r: Action)
    requires
        stepped(o, f, e, r),
    ensures
        (r is Enumerate) ==> e == Event::ImageChecked(true),
        e == Event::ImageChecked(false) ==> failed(f, r, RunError::InputFileNotFound),
{
}

/// A run that has finished takes no further event: after a failure, no prompt
/// is shown and no helper is launched.
pub proof fn lemma_finished_is_final(o: Session, e: Event)
    requires
        o.phase == Phase::Finished,
    ensures
        !answers(o.phase, e),
{
}

/// The index that the operator's `answer` selects among `count` records:
/// `SelectionParseError` when it is no index, `SelectionOutOfRange` when it is
/// `count` or more.
pub fn choose_device(answer: &str, count: usize) -> (r: Result<usize, RunError>)
    ensures
        match index_value(answer@) {
            Some(v) => if v < count {
                r == Ok::<usize, RunError>(v as usize)
            } else {
                r == Err::<usize, RunError>(RunError::SelectionOutOfRange)
            },
            None => r == Err::<usize, RunError>(RunError::SelectionParseError),
        },
{
    match parse_usize(answer) {
        None => Err(RunError::SelectionParseError),
        Some(i) => if i < count {
            Ok(i)
        } else {
            Err(RunError::SelectionOutOfRange)
        },
    }
}

/// One run: the image to write, the helper that writes it, and what has been
/// learnt so far.
pub struct Session {
    pub platform: Platform,
    pub image: String,
    pub helper: String,
    pub phase: Phase,
    pub devices: Vec<UsbBlockDevice>,
    pub chosen: usize,
}

impl Session {
    /// Once a disk is chosen, it is one of the listed ones; only drive-letter
    /// platforms resolve an address.
    pub open spec fn wf(&self) -> bool {
        &&& (self.phase == Phase::Resolving || self.phase == Phase::Dispatching) ==> self.chosen
            < self.devices@.len()
        &&& self.phase == Phase::Resolving ==> self.platform == Platform::DriveLetters
    }

    /// A run that has done nothing yet; its first action is `CheckImage`.
    pub fn new(platform: Platform, image: String, helper: String) -> (r: Session)
        ensures
            r.wf(),
            r.platform == platform,
            r.image == image,
            r.helper == helper,
            r.phase == Phase::CheckingImage,
            r.devices@.len() == 0,
    {
        Session { platform, image, helper, phase: Phase::CheckingImage, devices: Vec::new(), chosen: 0 }
    }

    /// The action that a new session starts with.
    pub fn start(&self) -> (r: Action)
        ensures
            r is CheckImage,
    {
        Action::CheckImage
    }

    /// Does `e` answer what this session asked for?
    pub fn expects(&self, e: &Event) -> (r: bool)
        ensures
            r == answers(self.phase, *e),
    {
        match e {
            Event::ImageChecked(_) => self.phase == Phase::CheckingImage,
            Event::Enumerated(_) => self.phase == Phase::Enumerating,
            Event::Answered(_) => self.phase == Phase::AwaitingInput,
            Event::MappingRead(_) => self.phase == Phase::Resolving,
            Event::HelperExited(_) => self.phase == Phase::Dispatching,
        }
    }

    /// Takes what the last action brought back, and says what to do next.
    ///
    /// The image is checked before anything else: only its presence leads to
    /// the enumeration. No disk leads to the end of the run, with no prompt and
    /// no launch. On drive-letter platforms the helper is launched only from
    /// `Resolving`, with the physical drive that the mapping gave. A failure
    /// always ends the run, and only the helper's success brings `Succeed`.
    pub fn step(&mut self, event: Event) -> (r: Action)
        requires
            old(self).wf(),
            answers(old(self).phase, event),
        ensures
            final(self).wf(),
            final(self).platform == old(self).platform,
            final(self).image == old(self).image,
            final(self).helper == old(self).helper,
            (r is Fail || r is Succeed) ==> final(self).phase == Phase::Finished,
            (r is Enumerate) ==> old(self).phase == Phase::CheckingImage,
            (r is Launch) ==> launched_from(old(self).platform, old(self).phase),
            stepped(*old(self), *final(self), event, r),
    {
        match event {
            Event::ImageChecked(present) => {
                if present {
                    self.phase = Phase::Enumerating;
                    Action::Enumerate
                } else {
                    self.finish(RunError::InputFileNotFound)
                }
            },
            Event::Enumerated(found) => match found {
                None => self.finish(RunError::EnumerationFailure),
                Some(entries) => {
                    self.devices = UsbBlockDevice::get_all(&entries);
                    if self.devices.len() == 0 {
                        self.finish(RunError::NoDevicesFound)
                    } else {
                        self.phase = Phase::AwaitingInput;
                        Action::Prompt(present(&self.devices))
                    }
                },
            },
            Event::Answered(answer) => match choose_device(answer.as_str(), self.devices.len()) {
                Err(e) => self.finish(e),
                Ok(i) => {
                    self.chosen = i;
                    match self.platform {
                        Platform::DriveLetters => {
                            self.phase = Phase::Resolving;
                            Action::ReadMapping
                        },
                        Platform::DevicePaths => self.launch(),
                    }
                },
            },
            Event::MappingRead(mapping) => match mapping {
                None => self.finish(RunError::AddressResolutionFailure),
                Some(text) => match self.devices[self.chosen].resolved(text.as_str()) {
                    Err(e) => self.finish(e),
                    Ok(d) => {
                        let i = self.chosen;
                        self.devices.set(i, d);
                        self.launch()
                    },
                },
            },
            Event::HelperExited(status) => {
                self.phase = Phase::Finished;
                match status {
                    None => Action::Fail(RunError::DispatchFailure),
                    Some(ok) => if ok {
                        Action::Succeed
                    } else {
                        Action::Fail(RunError::CopyFailure)
                    },
                }
            },
        }
    }

    fn finish(&mut self, e: RunError) -> (r: Action)
        ensures
            final(self).phase == Phase::Finished,
            final(self).platform == old(self).platform,
            final(self).image == old(self).image,
            final(self).helper == old(self).helper,
            final(self).devices == old(self).devices,
            final(self).chosen == old(self).chosen,
            r == Action::Fail(e),
    {
        self.phase = Phase::Finished;
        Action::Fail(e)
    }

    /// The launch of the helper on the chosen disk.
    fn launch(&mut self) -> (r: Action)
        requires
            old(self).chosen < old(self).devices@.len(),
        ensures
            final(self).phase == Phase::Dispatching,
            final(self).platform == old(self).platform,
            final(self).image == old(self).image,
            final(self).helper == old(self).helper,
            final(self).devices == old(self).devices,
            final(self).chosen == old(self).chosen,
            r matches Action::Launch(args) && string_views(args@) == command_line(
                old(self).platform,
                old(self).helper@,
                old(self).image@,
                old(self).devices@[old(self).chosen as int].raw_address@,
            ),
    {
        self.phase = Phase::Dispatching;
        let args = build_command(
            self.platform,
            &self.helper,
            &self.image,
            &self.devices[self.chosen].raw_address,
        );
        Action::Launch(args)
    }
}

} // verus!

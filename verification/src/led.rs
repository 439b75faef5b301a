//! The wire protocol of the keyboard's LED controller.
//!
//! The controller has four zones. Each takes a six-byte feature report, and a
//! two-byte commit report makes the four take effect. A change of the
//! backlight is the device's name read back, the four zone reports in zone
//! order, and the commit report; the first step that fails ends it.

use vstd::prelude::*;
use vstd::string::*;
use crate::error::{Error, ErrorView};

verus! {

/// First byte of every report.
pub const REPORT_MAGIC: u8 = 204;

/// Second byte of a zone report.
pub const ZONE_RESERVED: u8 = 0;

/// Second byte of the commit report.
pub const COMMIT_CODE: u8 = 9;

/// The style in which a zone is lit steadily.
pub const STYLE_ALWAYS_ON: u8 = 3;

/// The first colour of the controller's palette.
pub const COLOR_RED: u8 = 0;

/// Brightness of a dark zone.
pub const MIN_BRIGHTNESS: u8 = 0;

/// Brightness of a fully lit zone.
pub const MAX_BRIGHTNESS: u8 = 5;

/// Number of zones.
pub const ZONE_COUNT: u8 = 4;

/// What is said of the device's name when it cannot be read.
pub const NAME_FAILURE: &'static str = "Failed to read raw name";

/// The setting of one zone, field by field as it goes over the wire.
#[derive(Clone, Copy, Debug, PartialEq, Eq, Structural)]
pub struct LedCommand {
    pub magic: u8,
    pub reserved: u8,
    pub style: u8,
    pub color: u8,
    pub brightness: u8,
    pub zone: u8,
}

/// The brightness that stands for on and for off.
pub open spec fn brightness_for(on: bool) -> u8 {
    if on {
        MAX_BRIGHTNESS
    } else {
        MIN_BRIGHTNESS
    }
}

/// The command that switches one zone on or off.
pub open spec fn zone_command(zone: u8, on: bool) -> LedCommand {
    LedCommand {
        magic: REPORT_MAGIC,
        reserved: ZONE_RESERVED,
        style: STYLE_ALWAYS_ON,
        color: COLOR_RED,
        brightness: brightness_for(on),
        zone,
    }
}

/// The two bytes that commit the zone settings.
pub open spec fn commit_report() -> Seq<u8> {
    seq![REPORT_MAGIC, COMMIT_CODE]
}

/// The feature report at place `index` of a backlight change: the zones in
/// order, then the commit.
pub open spec fn report_at(index: u8, on: bool) -> Seq<u8> {
    if index < ZONE_COUNT {
        zone_command(index, on).bytes()
    } else {
        commit_report()
    }
}

/// All feature reports of a backlight change, in the order they are sent.
pub open spec fn backlight_reports(on: bool) -> Seq<Seq<u8>> {
    seq![
        report_at(0, on),
        report_at(1, on),
        report_at(2, on),
        report_at(3, on),
        report_at(4, on),
    ]
}

impl LedCommand {
    /// The brightness is one of the controller's levels and the zone exists.
    pub open spec fn well_formed(&self) -> bool {
        self.brightness <= MAX_BRIGHTNESS && self.zone < ZONE_COUNT
    }

    /// The six bytes of the command.
    pub open spec fn bytes(&self) -> Seq<u8> {
        seq![self.magic, self.reserved, self.style, self.color, self.brightness, self.zone]
    }

    /// The command that switches `zone` on or off.
    pub fn for_zone(zone: u8, on: bool) -> (command: LedCommand)
        ensures
            command == zone_command(zone, on),
            zone < ZONE_COUNT ==> command.well_formed(),
    {
        let brightness: u8 = if on {
            MAX_BRIGHTNESS
        } else {
            MIN_BRIGHTNESS
        };
        LedCommand {
            magic: REPORT_MAGIC,
            reserved: ZONE_RESERVED,
            style: STYLE_ALWAYS_ON,
            color: COLOR_RED,
            brightness,
            zone,
        }
    }

    /// The command as a feature report, or nothing where the brightness or
    /// the zone is out of range.
    pub fn encode(&self) -> (report: Option<Vec<u8>>)
        ensures
            self.well_formed() ==> (report matches Some(bytes) && bytes@ == self.bytes()),
            !self.well_formed() ==> report is None,
    {
        if self.brightness > MAX_BRIGHTNESS || self.zone >= ZONE_COUNT {
            return None;
        }
        let mut bytes: Vec<u8> = Vec::new();
        bytes.push(self.magic);
        bytes.push(self.reserved);
        bytes.push(self.style);
        bytes.push(self.color);
        bytes.push(self.brightness);
        bytes.push(self.zone);
        Some(bytes)
    }
}

/// The commit report.
pub fn encode_commit() -> (report: Vec<u8>)
    ensures
        report@ == commit_report(),
{
    let mut bytes: Vec<u8> = Vec::new();
    bytes.push(REPORT_MAGIC);
    bytes.push(COMMIT_CODE);
    bytes
}

/// What the device answered to the step that was asked of it.
#[derive(Clone, Copy, Debug, PartialEq, Eq, Structural)]
pub enum DeviceReply {
    /// The step was carried out.
    Done,
    /// The step failed with this errno code.
    Failed(i32),
}

/// How far a backlight change has come on an open device.
#[derive(Clone, Copy, Debug, PartialEq, Eq, Structural)]
pub enum LedStage {
    /// The device's name is to be read. Every change starts here.
    ReadName,
    /// The feature report at this place is to be sent: 0 to 3 for the zones,
    /// anything above for the commit.
    Report(u8),
    /// All reports went out.
    Completed,
    /// The name could not be read; nothing was sent.
    NameFailed,
    /// A report was refused with this errno code; nothing was sent after it.
    ReportFailed(i32),
}

/// What is to be done with the device next.
#[derive(Debug)]
pub enum LedAction {
    /// Read back the name that the device reports.
    ReadName,
    /// Send these bytes as a feature report.
    SendFeatureReport(Vec<u8>),
    /// Nothing more: the change ended with this result.
    Finish(Result<(), Error>),
}

/// An [`LedAction`] as a mathematical value.
pub enum LedActionView {
    ReadName,
    SendFeatureReport(Seq<u8>),
    Finish(Result<(), ErrorView>),
}

impl View for LedAction {
    type V = LedActionView;

    open spec fn view(&self) -> LedActionView {
        match self {
            LedAction::ReadName => LedActionView::ReadName,
            LedAction::SendFeatureReport(bytes) => LedActionView::SendFeatureReport(bytes@),
            LedAction::Finish(Ok(())) => LedActionView::Finish(Ok(())),
            LedAction::Finish(Err(error)) => LedActionView::Finish(Err(error@)),
        }
    }
}

/// The stage that follows `stage` once the device has answered its step. A
/// finished change stays as it is.
pub open spec fn stage_after(stage: LedStage, reply: DeviceReply) -> LedStage {
    match (stage, reply) {
        (LedStage::ReadName, DeviceReply::Done) => LedStage::Report(0),
        (LedStage::ReadName, DeviceReply::Failed(_)) => LedStage::NameFailed,
        (LedStage::Report(index), DeviceReply::Done) => if index < ZONE_COUNT {
            LedStage::Report((index + 1) as u8)
        } else {
            LedStage::Completed
        },
        (LedStage::Report(_), DeviceReply::Failed(code)) => LedStage::ReportFailed(code),
        (finished, _) => finished,
    }
}

/// What a backlight change asks for at `stage`.
pub open spec fn action_at(stage: LedStage, on: bool) -> LedActionView {
    match stage {
        LedStage::ReadName => LedActionView::ReadName,
        LedStage::Report(index) => LedActionView::SendFeatureReport(report_at(index, on)),
        LedStage::Completed => LedActionView::Finish(Ok(())),
        LedStage::NameFailed => LedActionView::Finish(Err(ErrorView::Problem(NAME_FAILURE@))),
        LedStage::ReportFailed(code) => LedActionView::Finish(Err(ErrorView::ErrNo(code))),
    }
}

impl LedStage {
    /// Whether the change is over at this stage.
    pub open spec fn finished(self) -> bool {
        self is Completed || self is NameFailed || self is ReportFailed
    }

    /// The stage at which every change starts.
    pub fn start() -> (stage: LedStage)
        ensures
            stage == LedStage::ReadName,
    {
        LedStage::ReadName
    }

    /// The stage that follows once the device has answered the pending step.
    pub fn after(self, reply: DeviceReply) -> (next: LedStage)
        ensures
            next == stage_after(self, reply),
    {
        match self {
            LedStage::ReadName => match reply {
                DeviceReply::Done => LedStage::Report(0),
                DeviceReply::Failed(_) => LedStage::NameFailed,
            },
            LedStage::Report(index) => match reply {
                DeviceReply::Done => if index < ZONE_COUNT {
                    LedStage::Report(index + 1)
                } else {
                    LedStage::Completed
                },
                DeviceReply::Failed(code) => LedStage::ReportFailed(code),
            },
            LedStage::Completed => LedStage::Completed,
            LedStage::NameFailed => LedStage::NameFailed,
            LedStage::ReportFailed(code) => LedStage::ReportFailed(code),
        }
    }
}

/// What switching the backlight on or off asks of the device at `stage`: the
/// name first, then the four zones at full or at no brightness in zone order,
/// then the commit, and at the end the result of the whole change.
pub fn turn_backlight_on_or_off(stage: &LedStage, on: bool) -> (action: LedAction)
    ensures
        action@ == action_at(*stage, on),
{
    match *stage {
        LedStage::ReadName => LedAction::ReadName,
        LedStage::Report(index) => {
            if index < ZONE_COUNT {
                let command = LedCommand::for_zone(index, on);
                LedAction::SendFeatureReport(command.encode().unwrap())
            } else {
                LedAction::SendFeatureReport(encode_commit())
            }
        },
        LedStage::Completed => LedAction::Finish(Ok(())),
        LedStage::NameFailed => LedAction::Finish(
            Err(Error::Problem(String::from_str(NAME_FAILURE))),
        ),
        LedStage::ReportFailed(code) => LedAction::Finish(Err(Error::ErrNo(code))),
    }
}

/// What switching the backlight on asks of the device at `stage`.
pub fn turn_backlight_on(stage: &LedStage) -> (action: LedAction)
    ensures
        action@ == action_at(*stage, true),
{
    turn_backlight_on_or_off(stage, true)
}

/// What switching the backlight off asks of the device at `stage`.
pub fn turn_backlight_off(stage: &LedStage) -> (action: LedAction)
    ensures
        action@ == action_at(*stage, false),
{
    turn_backlight_on_or_off(stage, false)
}

/// The stage that a change has reached once the device has answered its
/// steps with `replies`, in that order.
pub open spec fn stage_reached(replies: Seq<DeviceReply>) -> LedStage
    decreases replies.len(),
{
    if replies.len() == 0 {
        LedStage::ReadName
    } else {
        stage_after(stage_reached(replies.drop_last()), replies.last())
    }
}

/// Whether the first `count` of `replies` all report success.
pub open spec fn all_done(replies: Seq<DeviceReply>, count: int) -> bool {
    forall|i: int| 0 <= i < count ==> replies[i] == DeviceReply::Done
}

/// The stage after `count` steps that all succeeded.
proof fn lemma_stage_while_done(replies: Seq<DeviceReply>)
    requires
        all_done(replies, replies.len() as int),
    ensures
        replies.len() == 0 ==> stage_reached(replies) == LedStage::ReadName,
        1 <= replies.len() <= 5 ==> stage_reached(replies) == LedStage::Report(
            (replies.len() - 1) as u8,
        ),
        replies.len() >= 6 ==> stage_reached(replies) == LedStage::Completed,
    decreases replies.len(),
{
    if replies.len() > 0 {
        lemma_stage_while_done(replies.drop_last());
    }
}

/// A change that nothing disturbs asks for the device's name, then sends
/// exactly five feature reports, and then ends well: the four zones in zone
/// order, each at full brightness for on and at none for off, and the commit.
pub proof fn lemma_undisturbed_change(replies: Seq<DeviceReply>, on: bool)
    requires
        all_done(replies, replies.len() as int),
    ensures
        replies.len() == 0 ==> action_at(stage_reached(replies), on) == LedActionView::ReadName,
        1 <= replies.len() <= 5 ==> action_at(stage_reached(replies), on)
            == LedActionView::SendFeatureReport(backlight_reports(on)[replies.len() - 1]),
        replies.len() >= 6 ==> action_at(stage_reached(replies), on) == LedActionView::Finish(
            Ok(()),
        ),
        backlight_reports(on).len() == 5,
        forall|zone: u8|
            zone < 4 ==> #[trigger] backlight_reports(on)[zone as int] == seq![
                204u8,
                0u8,
                3u8,
                0u8,
                if on {
                    5u8
                } else {
                    0u8
                },
                zone,
            ],
        backlight_reports(on)[4] == seq![204u8, 9u8],
{
    lemma_stage_while_done(replies);
}

/// Once a change is over, no reply moves it and it asks for nothing more.
pub proof fn lemma_finished_stays(stage: LedStage, reply: DeviceReply, on: bool)
    requires
        stage.finished(),
    ensures
        stage_after(stage, reply) == stage,
        action_at(stage, on) is Finish,
{
}

/// The first step that fails ends the change with its error, whatever the
/// device answers afterwards: the unread name as a problem, a refused report
/// with its errno code.
pub proof fn lemma_first_failure_ends_change(replies: Seq<DeviceReply>, first: int, on: bool)
    requires
        0 <= first < replies.len(),
        first <= 5,
        all_done(replies, first),
        replies[first] is Failed,
    ensures
        first == 0 ==> action_at(stage_reached(replies), on) == LedActionView::Finish(
            Err(ErrorView::Problem(NAME_FAILURE@)),
        ),
        first > 0 ==> action_at(stage_reached(replies), on) == LedActionView::Finish(
            Err(ErrorView::ErrNo(replies[first]->Failed_0)),
        ),
    decreases replies.len(),
{
    if replies.len() == first + 1 {
        lemma_stage_while_done(replies.drop_last());
    } else {
        lemma_first_failure_ends_change(replies.drop_last(), first, on);
    }
}

} // verus!

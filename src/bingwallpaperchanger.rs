//! The change cycle orchestrator: one refresh of the wallpaper, as a state
//! machine. The program that drives it performs each action the cycle asks
//! for (fetching, showing, downloading, stamping, applying) and hands the
//! outcome back as an event, until the cycle finishes.

use vstd::prelude::*;

use crate::bingapiclient::BingAPIImagesArchiveImage;
use crate::configuration::BingWallpaperConfiguration;
use crate::freshness::{
    get_date_current_wallpaper, get_date_system, instant_token, no_date, no_date_token,
    wallpaper_token,
};
use crate::textoverlay::{byte_len, configured_placement, OverlayPlacement, TextOverlay};

verus! {

/// What the driver of a cycle is asked to do next.
#[derive(Debug, PartialEq, Eq)]
pub enum CycleAction {
    /// Fetch the descriptor of the image of the day in these dimensions;
    /// answer with `CycleEvent::Fetched`.
    FetchDescriptor { width: u32, height: u32 },
    /// Show the descriptor's information; answer with `CycleEvent::Done`.
    Report { title: String, copyright: String, copyrightlink: String },
    /// Download the image at the service's relative `url` into `target`,
    /// leaving `target` as it was on failure; answer with `CycleEvent::Done`.
    Download { url: String, target: String },
    /// Stamp `line1` and `line2` on the image in `target` at `placement`;
    /// answer with `CycleEvent::Done`.
    Overlay { target: String, line1: String, line2: String, placement: OverlayPlacement },
    /// Set `target` as the desktop background; answer with `CycleEvent::Done`.
    Apply { target: String },
    /// The cycle is over, with this outcome.
    Finish { result: Result<(), String> },
}

/// The outcome of an action, handed back to the cycle.
#[derive(Debug, PartialEq, Eq)]
pub enum CycleEvent {
    /// The descriptor, or why it could not be had.
    Fetched { descriptor: Result<BingAPIImagesArchiveImage, String> },
    /// The action is done, or why it failed.
    Done { result: Result<(), String> },
}

/// Where a cycle stands.
#[derive(Debug, PartialEq, Eq)]
pub enum Stage {
    /// Waiting for the descriptor.
    AwaitingDescriptor,
    /// Waiting for the descriptor's information to be shown.
    Reporting { image: BingAPIImagesArchiveImage },
    /// Waiting for the image to be downloaded.
    Downloading { image: BingAPIImagesArchiveImage },
    /// Waiting for the text to be stamped.
    Overlaying,
    /// Waiting for the wallpaper to be applied.
    Applying,
    /// Over: no event is accepted any more.
    Finished,
}

/// One refresh cycle: its inputs and where it stands.
pub struct ChangeCycle<'a> {
    /// The configuration of the run.
    pub configuration: &'a BingWallpaperConfiguration,
    /// Whether the wallpaper is applied at the end (else download only).
    pub must_change_wallpaper: bool,
    /// Today's date token (UTC).
    pub system_date: String,
    /// The date token of the wallpaper on disk.
    pub wallpaper_date: String,
    /// Where the cycle stands.
    pub stage: Stage,
}

/// Whether the image has to be downloaded: no wallpaper is on disk, or the
/// service does not publish it for today.
pub open spec fn needs_download(
    system_date: Seq<char>,
    wallpaper_date: Seq<char>,
    startdate: Seq<char>,
) -> bool {
    wallpaper_date == no_date() || startdate != system_date
}

/// Whether the action reaches the network.
pub open spec fn is_network(a: CycleAction) -> bool {
    a is FetchDescriptor || a is Download
}

impl<'a> ChangeCycle<'a> {
    /// The same cycle at another stage.
    pub open spec fn at(self, stage: Stage) -> ChangeCycle<'a> {
        ChangeCycle { stage, ..self }
    }

    /// The finished cycle with this outcome.
    pub open spec fn finish(self, result: Result<(), String>) -> (ChangeCycle<'a>, CycleAction) {
        (self.at(Stage::Finished), CycleAction::Finish { result })
    }

    /// Once the image is stamped, or needs no stamp: apply it if asked, else
    /// finish.
    pub open spec fn after_overlay(self) -> (ChangeCycle<'a>, CycleAction) {
        if self.must_change_wallpaper {
            (
                self.at(Stage::Applying),
                CycleAction::Apply { target: self.configuration.target_filename },
            )
        } else {
            self.finish(Ok(()))
        }
    }

    /// Once the image of `image` is on disk: stamp it where a position is
    /// configured.
    pub open spec fn after_download(self, image: BingAPIImagesArchiveImage) -> (
        ChangeCycle<'a>,
        CycleAction,
    ) {
        if self.configuration.text_overlay_position is Some {
            (
                self.at(Stage::Overlaying),
                CycleAction::Overlay {
                    target: self.configuration.target_filename,
                    line1: image.title,
                    line2: image.copyright,
                    placement: configured_placement(
                        *self.configuration,
                        byte_len(image.copyright@),
                    ),
                },
            )
        } else {
            self.after_overlay()
        }
    }

    /// Once the descriptor is shown: download the image where needed.
    pub open spec fn after_report(self, image: BingAPIImagesArchiveImage) -> (
        ChangeCycle<'a>,
        CycleAction,
    ) {
        if needs_download(self.system_date@, self.wallpaper_date@, image.startdate@) {
            (
                self.at(Stage::Downloading { image }),
                CycleAction::Download {
                    url: image.url,
                    target: self.configuration.target_filename,
                },
            )
        } else {
            self.after_download(image)
        }
    }

    /// Whether the cycle takes `event` where it stands.
    pub open spec fn accepts(self, event: CycleEvent) -> bool {
        match self.stage {
            Stage::AwaitingDescriptor => event is Fetched,
            Stage::Finished => false,
            _ => event is Done,
        }
    }

    /// The cycle and the next action after `event`; any failure ends the
    /// cycle with that failure.
    pub open spec fn next(self, event: CycleEvent) -> (ChangeCycle<'a>, CycleAction) {
        match event {
            CycleEvent::Fetched { descriptor: Err(e) } => self.finish(Err(e)),
            CycleEvent::Fetched { descriptor: Ok(image) } => (
                self.at(Stage::Reporting { image }),
                CycleAction::Report {
                    title: image.title,
                    copyright: image.copyright,
                    copyrightlink: image.copyrightlink,
                },
            ),
            CycleEvent::Done { result: Err(e) } => self.finish(Err(e)),
            CycleEvent::Done { result: Ok(()) } => match self.stage {
                Stage::Reporting { image } => self.after_report(image),
                Stage::Downloading { image } => self.after_download(image),
                Stage::Overlaying => self.after_overlay(),
                _ => self.finish(Ok(())),
            },
        }
    }
}

/// The cycle that starts with these dates and its first action: when the
/// wallpaper on disk is today's, nothing is fetched and it is applied (if
/// asked) as it is; otherwise the descriptor is fetched.
pub open spec fn begun<'a>(
    configuration: &'a BingWallpaperConfiguration,
    must_change_wallpaper: bool,
    system_date: String,
    wallpaper_date: String,
) -> (ChangeCycle<'a>, CycleAction) {
    let c = ChangeCycle {
        configuration,
        must_change_wallpaper,
        system_date,
        wallpaper_date,
        stage: Stage::AwaitingDescriptor,
    };
    if system_date@ == wallpaper_date@ {
        c.after_overlay()
    } else {
        (
            c,
            CycleAction::FetchDescriptor {
                width: configuration.image_dimension_width,
                height: configuration.image_dimension_height,
            },
        )
    }
}

/// The actions that `c` asks for as it is handed `events`, up to the first
/// event that it does not take.
pub open spec fn trace<'a>(c: ChangeCycle<'a>, events: Seq<CycleEvent>) -> Seq<CycleAction>
    decreases events.len(),
{
    if events.len() == 0 || !c.accepts(events[0]) {
        seq![]
    } else {
        seq![c.next(events[0]).1] + trace(c.next(events[0]).0, events.drop_first())
    }
}

/// All the actions of the cycle begun with these inputs and handed `events`.
pub open spec fn run_actions<'a>(
    configuration: &'a BingWallpaperConfiguration,
    must_change_wallpaper: bool,
    system_date: String,
    wallpaper_date: String,
    events: Seq<CycleEvent>,
) -> Seq<CycleAction> {
    let (c, first) = begun(configuration, must_change_wallpaper, system_date, wallpaper_date);
    seq![first] + trace(c, events)
}

impl<'a> ChangeCycle<'a> {
    /// Ends the cycle with `result`.
    fn finish_with(self, result: Result<(), String>) -> (r: (ChangeCycle<'a>, CycleAction))
        ensures
            r == self.finish(result),
    {
        (ChangeCycle { stage: Stage::Finished, ..self }, CycleAction::Finish { result })
    }

    /// Applies the wallpaper if asked, else finishes.
    fn apply_or_finish(self) -> (r: (ChangeCycle<'a>, CycleAction))
        ensures
            r == self.after_overlay(),
    {
        if self.must_change_wallpaper {
            let target = self.configuration.target_filename.clone();
            (ChangeCycle { stage: Stage::Applying, ..self }, CycleAction::Apply { target })
        } else {
            self.finish_with(Ok(()))
        }
    }

    /// Stamps the description of `image` where a position is configured.
    fn stamp_or_skip(self, image: BingAPIImagesArchiveImage) -> (r: (ChangeCycle<'a>, CycleAction))
        ensures
            r == self.after_download(image),
    {
        match TextOverlay::placement(self.configuration, image.copyright.as_str()) {
            Some(placement) => {
                let target = self.configuration.target_filename.clone();
                (
                    ChangeCycle { stage: Stage::Overlaying, ..self },
                    CycleAction::Overlay {
                        target,
                        line1: image.title,
                        line2: image.copyright,
                        placement,
                    },
                )
            },
            None => self.apply_or_finish(),
        }
    }

    /// Downloads the image of `image` where needed.
    fn download_or_skip(self, image: BingAPIImagesArchiveImage) -> (r: (ChangeCycle<'a>, CycleAction))
        ensures
            r == self.after_report(image),
    {
        let absent = self.wallpaper_date == no_date_token();
        let current = image.startdate == self.system_date;
        if absent || !current {
            let url = image.url.clone();
            let target = self.configuration.target_filename.clone();
            (
                ChangeCycle { stage: Stage::Downloading { image }, ..self },
                CycleAction::Download { url, target },
            )
        } else {
            self.stamp_or_skip(image)
        }
    }

    /// Begins a cycle on the configuration of the run, today's date token
    /// `system_date` and the wallpaper's `wallpaper_date`, and returns it with
    /// its first action. `must_change_wallpaper` asks for the wallpaper to be
    /// applied at the end; without it the cycle only downloads.
    pub fn begin(
        configuration: &'a BingWallpaperConfiguration,
        must_change_wallpaper: bool,
        system_date: String,
        wallpaper_date: String,
    ) -> (r: (ChangeCycle<'a>, CycleAction))
        ensures
            r == begun(configuration, must_change_wallpaper, system_date, wallpaper_date),
    {
        let fresh = system_date == wallpaper_date;
        let c = ChangeCycle {
            configuration,
            must_change_wallpaper,
            system_date,
            wallpaper_date,
            stage: Stage::AwaitingDescriptor,
        };
        if fresh {
            c.apply_or_finish()
        } else {
            (
                c,
                CycleAction::FetchDescriptor {
                    width: configuration.image_dimension_width,
                    height: configuration.image_dimension_height,
                },
            )
        }
    }

    /// Begins a cycle at the instant `now` (seconds since the Unix epoch), the
    /// wallpaper on disk having been modified at `modified` (`None`: absent or
    /// unreadable), and returns it with its first action. Where the calendar
    /// cannot place `now`, the cycle finishes at once with an error.
    pub fn start(
        configuration: &'a BingWallpaperConfiguration,
        must_change_wallpaper: bool,
        now: i64,
        modified: Option<i64>,
    ) -> (r: (ChangeCycle<'a>, CycleAction))
        ensures
            match instant_token(now as int) {
                Some(today) => {
                    &&& r.0.system_date@ == today
                    &&& r.0.wallpaper_date@ == wallpaper_token(modified)
                    &&& r == begun(
                        configuration,
                        must_change_wallpaper,
                        r.0.system_date,
                        r.0.wallpaper_date,
                    )
                },
                None => r.0.stage is Finished && (r.1 matches CycleAction::Finish {
                    result: Err(e),
                } && e@ == "Can't place the system time in the calendar"@),
            },
    {
        let wallpaper_date = get_date_current_wallpaper(modified);
        match get_date_system(now) {
            Some(system_date) => ChangeCycle::begin(
                configuration,
                must_change_wallpaper,
                system_date,
                wallpaper_date,
            ),
            None => {
                let c = ChangeCycle {
                    configuration,
                    must_change_wallpaper,
                    system_date: String::new(),
                    wallpaper_date,
                    stage: Stage::AwaitingDescriptor,
                };
                c.finish_with(Err(String::from_str("Can't place the system time in the calendar")))
            },
        }
    }

    /// Tells whether the cycle takes `event` where it stands.
    pub fn accepts_event(&self, event: &CycleEvent) -> (r: bool)
        ensures
            r == self.accepts(*event),
    {
        match self.stage {
            Stage::AwaitingDescriptor => matches!(event, CycleEvent::Fetched { .. }),
            Stage::Finished => false,
            _ => matches!(event, CycleEvent::Done { .. }),
        }
    }

    /// Tells whether the cycle is over.
    pub fn is_finished(&self) -> (r: bool)
        ensures
            r == (self.stage is Finished),
    {
        matches!(self.stage, Stage::Finished)
    }

    /// Hands the outcome of the last action to the cycle, and returns the
    /// cycle with its next action.
    pub fn step(self, event: CycleEvent) -> (r: (ChangeCycle<'a>, CycleAction))
        requires
            self.accepts(event),
        ensures
            r == self.next(event),
    {
        match event {
            CycleEvent::Fetched { descriptor: Err(e) } => self.finish_with(Err(e)),
            CycleEvent::Fetched { descriptor: Ok(image) } => {
                let title = image.title.clone();
                let copyright = image.copyright.clone();
                let copyrightlink = image.copyrightlink.clone();
                (
                    ChangeCycle { stage: Stage::Reporting { image }, ..self },
                    CycleAction::Report { title, copyright, copyrightlink },
                )
            },
            CycleEvent::Done { result: Err(e) } => self.finish_with(Err(e)),
            CycleEvent::Done { result: Ok(()) } => {
                let ChangeCycle {
                    configuration,
                    must_change_wallpaper,
                    system_date,
                    wallpaper_date,
                    stage,
                } = self;
                let c = ChangeCycle {
                    configuration,
                    must_change_wallpaper,
                    system_date,
                    wallpaper_date,
                    stage: Stage::Finished,
                };
                match stage {
                    Stage::Reporting { image } => c.download_or_skip(image),
                    Stage::Downloading { image } => c.stamp_or_skip(image),
                    Stage::Overlaying => c.apply_or_finish(),
                    _ => c.finish_with(Ok(())),
                }
            },
        }
    }
}

/// A finished cycle asks for nothing more.
proof fn lemma_finished_asks_nothing<'a>(c: ChangeCycle<'a>, events: Seq<CycleEvent>)
    requires
        c.stage is Finished,
    ensures
        trace(c, events) == Seq::<CycleAction>::empty(),
{
}

/// A cycle waiting for the wallpaper to be applied asks for nothing but to
/// finish.
proof fn lemma_applying_only_finishes<'a>(c: ChangeCycle<'a>, events: Seq<CycleEvent>)
    requires
        c.stage is Applying,
    ensures
        forall|i: int| 0 <= i < trace(c, events).len() ==> #[trigger] trace(c, events)[i] is Finish,
{
    if events.len() > 0 && c.accepts(events[0]) {
        lemma_finished_asks_nothing(c.next(events[0]).0, events.drop_first());
        assert(trace(c, events) =~= seq![c.next(events[0]).1]);
    }
}

/// A cycle that is past its downloading step asks for no download.
proof fn lemma_no_download_after_downloading<'a>(c: ChangeCycle<'a>, events: Seq<CycleEvent>)
    requires
        c.stage is Overlaying || c.stage is Applying || c.stage is Finished,
    ensures
        forall|i: int| 0 <= i < trace(c, events).len() ==> !(#[trigger] trace(c, events)[i] is Download),
    decreases events.len(),
{
    if events.len() > 0 && c.accepts(events[0]) {
        let (n, a) = c.next(events[0]);
        lemma_no_download_after_downloading(n, events.drop_first());
        assert(trace(c, events) == seq![a] + trace(n, events.drop_first()));
    }
}

/// A cycle that neither must apply the wallpaper nor waits for it to be
/// applied never asks for it to be applied.
proof fn lemma_no_apply_without_request<'a>(c: ChangeCycle<'a>, events: Seq<CycleEvent>)
    requires
        !c.must_change_wallpaper,
        !(c.stage is Applying),
    ensures
        forall|i: int| 0 <= i < trace(c, events).len() ==> !(#[trigger] trace(c, events)[i] is Apply),
    decreases events.len(),
{
    if events.len() > 0 && c.accepts(events[0]) {
        let (n, a) = c.next(events[0]);
        lemma_no_apply_without_request(n, events.drop_first());
        assert(trace(c, events) == seq![a] + trace(n, events.drop_first()));
    }
}

/// A cycle whose configuration sets no overlay position, and which does not
/// wait for a stamp, never asks for a stamp.
proof fn lemma_no_overlay_without_position<'a>(c: ChangeCycle<'a>, events: Seq<CycleEvent>)
    requires
        c.configuration.text_overlay_position is None,
        !(c.stage is Overlaying),
    ensures
        forall|i: int| 0 <= i < trace(c, events).len() ==> !(#[trigger] trace(c, events)[i] is Overlay),
    decreases events.len(),
{
    if events.len() > 0 && c.accepts(events[0]) {
        let (n, a) = c.next(events[0]);
        lemma_no_overlay_without_position(n, events.drop_first());
        assert(trace(c, events) == seq![a] + trace(n, events.drop_first()));
    }
}

/// When the wallpaper on disk already has today's date, a cycle makes no
/// network call: it neither fetches the descriptor nor downloads, whatever
/// the outcomes handed to it.
pub proof fn lemma_current_wallpaper_needs_no_network<'a>(
    configuration: &'a BingWallpaperConfiguration,
    must_change_wallpaper: bool,
    system_date: String,
    wallpaper_date: String,
    events: Seq<CycleEvent>,
)
    requires
        system_date@ == wallpaper_date@,
    ensures
        forall|i: int|
            0 <= i < run_actions(
                configuration,
                must_change_wallpaper,
                system_date,
                wallpaper_date,
                events,
            ).len() ==> !is_network(
                #[trigger] run_actions(
                    configuration,
                    must_change_wallpaper,
                    system_date,
                    wallpaper_date,
                    events,
                )[i],
            ),
{
    let (c, first) = begun(configuration, must_change_wallpaper, system_date, wallpaper_date);
    if c.stage is Applying {
        lemma_applying_only_finishes(c, events);
    } else {
        lemma_finished_asks_nothing(c, events);
    }
    let run = run_actions(configuration, must_change_wallpaper, system_date, wallpaper_date, events);
    assert forall|i: int| 0 <= i < run.len() implies !is_network(#[trigger] run[i]) by {
        if i > 0 {
            assert(run[i] == trace(c, events)[i - 1]);
        }
    }
}

/// When the descriptor says the image is today's and a wallpaper is on
/// disk, the cycle fetches the descriptor and shows it, but downloads
/// nothing, whatever the later outcomes.
pub proof fn lemma_current_image_is_not_downloaded<'a>(
    configuration: &'a BingWallpaperConfiguration,
    must_change_wallpaper: bool,
    system_date: String,
    wallpaper_date: String,
    image: BingAPIImagesArchiveImage,
    events: Seq<CycleEvent>,
)
    requires
        system_date@ != wallpaper_date@,
        wallpaper_date@ != no_date(),
        image.startdate@ == system_date@,
    ensures
        ({
            let run = run_actions(
                configuration,
                must_change_wallpaper,
                system_date,
                wallpaper_date,
                seq![CycleEvent::Fetched { descriptor: Ok(image) }] + events,
            );
            &&& run[0] == CycleAction::FetchDescriptor {
                width: configuration.image_dimension_width,
                height: configuration.image_dimension_height,
            }
            &&& run[1] == CycleAction::Report {
                title: image.title,
                copyright: image.copyright,
                copyrightlink: image.copyrightlink,
            }
            &&& forall|i: int| 0 <= i < run.len() ==> !(#[trigger] run[i] is Download)
        }),
{
    let fetched = CycleEvent::Fetched { descriptor: Ok(image) };
    let all = seq![fetched] + events;
    let (c0, first) = begun(configuration, must_change_wallpaper, system_date, wallpaper_date);
    let (c1, report) = c0.next(fetched);
    assert(all[0] == fetched);
    assert(all.drop_first() =~= events);
    assert(trace(c0, all) == seq![report] + trace(c1, events));
    if events.len() > 0 && c1.accepts(events[0]) {
        let (c2, a) = c1.next(events[0]);
        lemma_no_download_after_downloading(c2, events.drop_first());
        assert(trace(c1, events) == seq![a] + trace(c2, events.drop_first()));
    }
    let run = run_actions(
        configuration,
        must_change_wallpaper,
        system_date,
        wallpaper_date,
        all,
    );
    assert(run == seq![first] + (seq![report] + trace(c1, events)));
    assert forall|i: int| 0 <= i < run.len() implies !(#[trigger] run[i] is Download) by {
        if i > 1 {
            assert(run[i] == trace(c1, events)[i - 2]);
        }
    }
}

/// When the descriptor cannot be fetched, the cycle ends with that error
/// and asks for nothing else: the wallpaper file is left as it was.
pub proof fn lemma_failed_fetch_leaves_wallpaper<'a>(
    configuration: &'a BingWallpaperConfiguration,
    must_change_wallpaper: bool,
    system_date: String,
    wallpaper_date: String,
    error: String,
    events: Seq<CycleEvent>,
)
    requires
        system_date@ != wallpaper_date@,
    ensures
        run_actions(
            configuration,
            must_change_wallpaper,
            system_date,
            wallpaper_date,
            seq![CycleEvent::Fetched { descriptor: Err(error) }] + events,
        ) == seq![
            CycleAction::FetchDescriptor {
                width: configuration.image_dimension_width,
                height: configuration.image_dimension_height,
            },
            CycleAction::Finish { result: Err(error) },
        ],
{
    let failed = CycleEvent::Fetched { descriptor: Err(error) };
    let all = seq![failed] + events;
    let (c0, first) = begun(configuration, must_change_wallpaper, system_date, wallpaper_date);
    let (c1, last) = c0.next(failed);
    assert(all[0] == failed);
    assert(all.drop_first() =~= events);
    lemma_finished_asks_nothing(c1, events);
    assert(trace(c0, all) =~= seq![last]);
    assert(run_actions(configuration, must_change_wallpaper, system_date, wallpaper_date, all)
        =~= seq![first, last]);
}

/// Without an overlay position in the configuration, no cycle asks for a
/// stamp: the image is left as downloaded.
pub proof fn lemma_no_position_no_overlay<'a>(
    configuration: &'a BingWallpaperConfiguration,
    must_change_wallpaper: bool,
    system_date: String,
    wallpaper_date: String,
    events: Seq<CycleEvent>,
)
    requires
        configuration.text_overlay_position is None,
    ensures
        forall|i: int|
            0 <= i < run_actions(
                configuration,
                must_change_wallpaper,
                system_date,
                wallpaper_date,
                events,
            ).len() ==> !(#[trigger] run_actions(
                configuration,
                must_change_wallpaper,
                system_date,
                wallpaper_date,
                events,
            )[i] is Overlay),
{
    let (c, first) = begun(configuration, must_change_wallpaper, system_date, wallpaper_date);
    lemma_no_overlay_without_position(c, events);
    let run = run_actions(configuration, must_change_wallpaper, system_date, wallpaper_date, events);
    assert forall|i: int| 0 <= i < run.len() implies !(#[trigger] run[i] is Overlay) by {
        if i > 0 {
            assert(run[i] == trace(c, events)[i - 1]);
        }
    }
}

/// A download-only cycle never asks for the wallpaper to be applied,
/// whether the wallpaper on disk is current or not, whatever the outcomes.
pub proof fn lemma_download_only_never_applies<'a>(
    configuration: &'a BingWallpaperConfiguration,
    system_date: String,
    wallpaper_date: String,
    events: Seq<CycleEvent>,
)
    ensures
        forall|i: int|
            0 <= i < run_actions(configuration, false, system_date, wallpaper_date, events).len()
                ==> !(#[trigger] run_actions(
                configuration,
                false,
                system_date,
                wallpaper_date,
                events,
            )[i] is Apply),
{
    let (c, first) = begun(configuration, false, system_date, wallpaper_date);
    lemma_no_apply_without_request(c, events);
    let run = run_actions(configuration, false, system_date, wallpaper_date, events);
    assert forall|i: int| 0 <= i < run.len() implies !(#[trigger] run[i] is Apply) by {
        if i > 0 {
            assert(run[i] == trace(c, events)[i - 1]);
        }
    }
}

} // verus!

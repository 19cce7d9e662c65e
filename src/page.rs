//! The date and time settings page: its state, the messages it takes and
//! the actions it hands back for the host to carry out.
use vstd::prelude::*;
use crate::clock::{DateTimeSample, local_now};
use crate::format::{date_text, format_date};
use crate::weekday::{code_of_index, index_of_code, weekday_code, weekday_index, SUNDAY};

verus! {

/// What a query of the time service found.
#[derive(Clone, Debug)]
pub struct Info {
    pub ntp_enabled: bool,
    pub timezone_id: Option<usize>,
    pub timezone_list: Vec<String>,
}

/// An intent of the user or the outcome of a background task.
#[derive(Clone, Debug)]
pub enum Message {
    Automatic(bool),
    Error(String),
    MilitaryTime(bool),
    NoOp,
    FirstDayOfWeek(usize),
    Refresh(Info),
    ShowDate(bool),
    Timezone(usize),
    UpdateTime,
}

/// Work that the host carries out after a message has been applied.
#[derive(Clone, Debug)]
pub enum Action {
    /// Nothing to do.
    Nothing,
    /// Turn automatic time sync on or off, synchronizing now.
    SetNtp(bool),
    /// Store the 24-hour flag.
    SaveMilitaryTime(bool),
    /// Store the first-day-of-week code.
    SaveFirstDayOfWeek(usize),
    /// Store the show-date-in-panel flag.
    SaveShowDate(bool),
    /// Set the system time zone, synchronizing now; on success the host
    /// sends `UpdateTime`, on failure `Error`.
    SetTimezone(String),
    /// Report a fault.
    Report(String),
}

/// The texts of a list of strings.
pub open spec fn texts(v: Seq<String>) -> Seq<Seq<char>> {
    v.map_values(|s: String| s@)
}

/// `p` is where `tz` first stands in `list`, or `None` where it stands nowhere.
pub open spec fn first_position(list: Seq<Seq<char>>, tz: Seq<char>, p: Option<usize>) -> bool {
    match p {
        Some(i) => {
            &&& i < list.len()
            &&& list[i as int] == tz
            &&& forall|j: int| 0 <= j < i ==> list[j] != tz
        },
        None => forall|j: int| 0 <= j < list.len() ==> list[j] != tz,
    }
}

/// `info` is what the time service reported: whether it can sync by NTP,
/// whether NTP is active, its time zones in order, and the current zone.
pub open spec fn reported(
    info: Info,
    can_ntp: bool,
    ntp_active: bool,
    list: Seq<Seq<char>>,
    tz: Seq<char>,
) -> bool {
    &&& info.ntp_enabled == (can_ntp && ntp_active)
    &&& texts(info.timezone_list@) == list
    &&& first_position(list, tz, info.timezone_id)
}

/// Finds where `tz` first stands in `list`.
pub fn timezone_position(list: &Vec<String>, tz: &String) -> (r: Option<usize>)
    ensures
        first_position(texts(list@), tz@, r),
{
    let mut i: usize = 0;
    while i < list.len()
        invariant
            i <= list@.len(),
            forall|j: int| 0 <= j < i ==> list@[j]@ != tz@,
        decreases list@.len() - i,
    {
        if list[i] == *tz {
            return Some(i);
        }
        i = i + 1;
    }
    None
}

impl Info {
    /// Packs what the time service reported. NTP counts as enabled only
    /// where the service can sync by NTP and reports it active; the
    /// selected zone is where the current zone first stands in the list.
    pub fn from_service(can_ntp: bool, ntp_active: bool, timezone_list: Vec<String>, timezone: &String) -> (r: Info)
        ensures
            reported(r, can_ntp, ntp_active, texts(timezone_list@), timezone@),
            r.timezone_list@ == timezone_list@,
    {
        let timezone_id = timezone_position(&timezone_list, timezone);
        Info { ntp_enabled: can_ntp && ntp_active, timezone_id, timezone_list }
    }
}

/// The settings as the page holds them.
pub struct PageView {
    pub first_day_of_week: usize,
    pub military_time: bool,
    pub ntp_enabled: bool,
    pub show_date_in_top_panel: bool,
    pub local_time: Option<DateTimeSample>,
    pub timezone: Option<usize>,
    pub timezone_list: Seq<Seq<char>>,
    pub formatted_date: Seq<char>,
    pub lang: Option<Seq<char>>,
}

/// The shown date is that of the last sample under the current hour cycle,
/// and empty before the first sample.
pub open spec fn shows_sample(v: PageView) -> bool {
    match v.local_time {
        Some(t) => t.wf() && v.formatted_date == date_text(v.lang, t, v.military_time),
        None => v.formatted_date.len() == 0,
    }
}

/// `v` with the sample `t` and the date rendered for it.
pub open spec fn sampled_at(v: PageView, t: DateTimeSample) -> PageView {
    PageView { local_time: Some(t), formatted_date: date_text(v.lang, t, v.military_time), ..v }
}

/// `new` is `v` with the clock sampled and the date rendered for the sample.
/// Where the clock cannot be read, the sample is the last one; without a
/// last one, nothing changes.
pub open spec fn resampled(v: PageView, new: PageView) -> bool {
    match new.local_time {
        Some(t) => t.wf() && new == sampled_at(v, t),
        None => v.local_time is None && new == v,
    }
}

/// How a message changes the page.
pub open spec fn steps_to(v: PageView, msg: Message, new: PageView) -> bool {
    match msg {
        Message::Automatic(enable) => new == PageView { ntp_enabled: enable, ..v },
        Message::MilitaryTime(enable) => resampled(PageView { military_time: enable, ..v }, new),
        Message::FirstDayOfWeek(code) => new == PageView { first_day_of_week: code, ..v },
        Message::ShowDate(enable) => new == PageView { show_date_in_top_panel: enable, ..v },
        Message::Timezone(index) => new == PageView { timezone: Some(index), ..v },
        Message::UpdateTime => resampled(v, new),
        Message::Refresh(info) => resampled(
            PageView {
                ntp_enabled: info.ntp_enabled,
                timezone_list: texts(info.timezone_list@),
                timezone: info.timezone_id,
                ..v
            },
            new,
        ),
        Message::Error(_) => new == v,
        Message::NoOp => new == v,
    }
}

/// The action that a message asks of the host.
pub open spec fn acts(v: PageView, msg: Message, a: Action) -> bool {
    match msg {
        Message::Automatic(enable) => a == Action::SetNtp(enable),
        Message::MilitaryTime(enable) => a == Action::SaveMilitaryTime(enable),
        Message::FirstDayOfWeek(code) => a == Action::SaveFirstDayOfWeek(code),
        Message::ShowDate(enable) => a == Action::SaveShowDate(enable),
        Message::Timezone(index) => if index < v.timezone_list.len() {
            match a {
                Action::SetTimezone(tz) => tz@ == v.timezone_list[index as int],
                _ => false,
            }
        } else {
            a == Action::Nothing
        },
        Message::Error(why) => match a {
            Action::Report(text) => text@ == why@,
            _ => false,
        },
        _ => a == Action::Nothing,
    }
}

/// The date and time settings page.
pub struct Page {
    first_day_of_week: usize,
    military_time: bool,
    ntp_enabled: bool,
    show_date_in_top_panel: bool,
    local_time: Option<DateTimeSample>,
    timezone: Option<usize>,
    timezone_list: Vec<String>,
    formatted_date: String,
    lang: Option<String>,
}

impl View for Page {
    type V = PageView;

    closed spec fn view(&self) -> PageView {
        PageView {
            first_day_of_week: self.first_day_of_week,
            military_time: self.military_time,
            ntp_enabled: self.ntp_enabled,
            show_date_in_top_panel: self.show_date_in_top_panel,
            local_time: self.local_time,
            timezone: self.timezone,
            timezone_list: texts(self.timezone_list@),
            formatted_date: self.formatted_date@,
            lang: match self.lang {
                Some(l) => Some(l@),
                None => None,
            },
        }
    }
}

impl Page {
    /// The shown date is never stale.
    pub open spec fn wf(&self) -> bool {
        shows_sample(self@)
    }

    /// A page with the stored settings, where each one that could not be
    /// read takes its default: 12-hour clock, Sunday first, date shown in the
    /// panel. `lang` is the language setting (a `LANG` value). NTP counts as
    /// off and no time zone is known until a refresh; no date is shown yet.
    pub fn new(
        military_time: Option<bool>,
        first_day_of_week: Option<usize>,
        show_date_in_top_panel: Option<bool>,
        lang: Option<String>,
    ) -> (r: Page)
        ensures
            r.wf(),
            r@.military_time == match military_time {
                Some(b) => b,
                None => false,
            },
            r@.first_day_of_week == match first_day_of_week {
                Some(c) => c,
                None => SUNDAY,
            },
            r@.show_date_in_top_panel == match show_date_in_top_panel {
                Some(b) => b,
                None => true,
            },
            r@.lang == match lang {
                Some(l) => Some(l@),
                None => None,
            },
            !r@.ntp_enabled,
            r@.local_time is None,
            r@.timezone is None,
            r@.timezone_list.len() == 0,
            r@.formatted_date.len() == 0,
    {
        let military_time = match military_time {
            Some(b) => b,
            None => false,
        };
        let first_day_of_week = match first_day_of_week {
            Some(c) => c,
            None => SUNDAY,
        };
        let show_date_in_top_panel = match show_date_in_top_panel {
            Some(b) => b,
            None => true,
        };
        let r = Page {
            first_day_of_week,
            military_time,
            ntp_enabled: false,
            show_date_in_top_panel,
            local_time: None,
            timezone: None,
            timezone_list: Vec::new(),
            formatted_date: String::new(),
            lang,
        };
        assert(texts(r.timezone_list@) =~= Seq::empty());
        r
    }

    /// Sets the sample and renders the date for it under the current hour
    /// cycle.
    pub fn set_local_time(&mut self, t: DateTimeSample)
        requires
            t.wf(),
        ensures
            final(self)@ == sampled_at(old(self)@, t),
    {
        self.formatted_date = format_date(&self.lang, &t, self.military_time);
        self.local_time = Some(t);
    }

    /// Renders a new sample, or, where none could be had, renders the last
    /// sample again under the current hour cycle (without a last one,
    /// nothing changes).
    pub fn apply_sample(&mut self, sample: Option<DateTimeSample>)
        requires
            sample is Some ==> sample->0.wf(),
            old(self)@.local_time is Some ==> old(self)@.local_time->0.wf(),
        ensures
            sample is Some ==> final(self)@ == sampled_at(old(self)@, sample->0),
            sample is None && old(self)@.local_time is Some ==> final(self)@ == sampled_at(
                old(self)@,
                old(self)@.local_time->0,
            ),
            sample is None && old(self)@.local_time is None ==> final(self)@ == old(self)@,
            resampled(old(self)@, final(self)@),
    {
        match sample {
            Some(t) => self.set_local_time(t),
            None => match self.local_time {
                Some(t) => self.set_local_time(t),
                None => {},
            },
        }
    }

    /// Takes a new sample of the local clock and renders it under the
    /// current hour cycle. Where the clock cannot be read, the last sample is
    /// rendered again.
    pub fn update_local_time(&mut self)
        requires
            old(self)@.local_time is Some ==> old(self)@.local_time->0.wf(),
        ensures
            resampled(old(self)@, final(self)@),
    {
        self.apply_sample(local_now());
    }

    /// Applies a message and returns the action it asks of the host.
    pub fn update(&mut self, message: Message) -> (r: Action)
        requires
            old(self).wf(),
        ensures
            final(self).wf(),
            steps_to(old(self)@, message, final(self)@),
            acts(old(self)@, message, r),
    {
        match message {
            Message::Automatic(enable) => {
                self.ntp_enabled = enable;
                Action::SetNtp(enable)
            },
            Message::MilitaryTime(enable) => {
                self.military_time = enable;
                self.update_local_time();
                Action::SaveMilitaryTime(enable)
            },
            Message::FirstDayOfWeek(weekday) => {
                self.first_day_of_week = weekday;
                Action::SaveFirstDayOfWeek(weekday)
            },
            Message::ShowDate(enable) => {
                self.show_date_in_top_panel = enable;
                Action::SaveShowDate(enable)
            },
            Message::Timezone(timezone_id) => {
                self.timezone = Some(timezone_id);
                if timezone_id < self.timezone_list.len() {
                    Action::SetTimezone(self.timezone_list[timezone_id].clone())
                } else {
                    Action::Nothing
                }
            },
            Message::Error(why) => Action::Report(why),
            Message::UpdateTime => {
                self.update_local_time();
                Action::Nothing
            },
            Message::Refresh(info) => {
                self.ntp_enabled = info.ntp_enabled;
                self.timezone_list = info.timezone_list;
                self.timezone = info.timezone_id;
                self.update_local_time();
                Action::Nothing
            },
            Message::NoOp => Action::Nothing,
        }
    }

    /// Whether automatic time sync is on.
    pub fn ntp_enabled(&self) -> (r: bool)
        ensures
            r == self@.ntp_enabled,
    {
        self.ntp_enabled
    }

    /// Whether the 24-hour clock is on.
    pub fn military_time(&self) -> (r: bool)
        ensures
            r == self@.military_time,
    {
        self.military_time
    }

    /// The stored first-day-of-week code.
    pub fn first_day_of_week(&self) -> (r: usize)
        ensures
            r == self@.first_day_of_week,
    {
        self.first_day_of_week
    }

    /// The first-day-of-week dropdown position of the stored code.
    pub fn first_day_index(&self) -> (r: usize)
        ensures
            r == index_of_code(self@.first_day_of_week),
    {
        weekday_index(self.first_day_of_week)
    }

    /// Whether the date is shown in the top panel.
    pub fn show_date_in_top_panel(&self) -> (r: bool)
        ensures
            r == self@.show_date_in_top_panel,
    {
        self.show_date_in_top_panel
    }

    /// The selected time zone's position in the zone list, if any.
    pub fn timezone(&self) -> (r: Option<usize>)
        ensures
            r == self@.timezone,
    {
        self.timezone
    }

    /// The time zones, in the order the time service gave them.
    pub fn timezone_list(&self) -> (r: &Vec<String>)
        ensures
            texts(r@) == self@.timezone_list,
    {
        &self.timezone_list
    }

    /// The last clock sample, if one was taken.
    pub fn local_time(&self) -> (r: Option<DateTimeSample>)
        ensures
            r == self@.local_time,
    {
        self.local_time
    }

    /// The date shown for the last sample.
    pub fn formatted_date(&self) -> (r: &str)
        ensures
            r@ == self@.formatted_date,
    {
        self.formatted_date.as_str()
    }
}

impl Default for Page {
    /// A page with every setting at its default and no language setting.
    fn default() -> (r: Page)
        ensures
            r.wf(),
            !r@.military_time,
            r@.first_day_of_week == SUNDAY,
            r@.show_date_in_top_panel,
            r@.lang is None,
            !r@.ntp_enabled,
            r@.local_time is None,
            r@.timezone is None,
            r@.timezone_list.len() == 0,
            r@.formatted_date.len() == 0,
    {
        Page::new(None, None, None, None)
    }
}

impl Message {
    /// The message for a choice in the first-day-of-week dropdown.
    pub fn first_day_chosen(index: usize) -> (r: Message)
        ensures
            r == Message::FirstDayOfWeek(code_of_index(index)),
    {
        Message::FirstDayOfWeek(weekday_code(index))
    }
}

/// A refresh whose zone list lacks the current zone leaves no zone selected.
pub proof fn lemma_unknown_zone_unselected(
    v: PageView,
    info: Info,
    can_ntp: bool,
    ntp_active: bool,
    list: Seq<Seq<char>>,
    tz: Seq<char>,
    new: PageView,
)
    requires
        reported(info, can_ntp, ntp_active, list, tz),
        !list.contains(tz),
        steps_to(v, Message::Refresh(info), new),
    ensures
        new.timezone is None,
{
    if info.timezone_id is Some {
        let i = info.timezone_id->0 as int;
        assert(list[i] == tz);
        assert(list.contains(tz));
    }
}

/// A refresh from a service that cannot sync by NTP leaves NTP off,
/// whatever the service reports of NTP being active.
pub proof fn lemma_no_ntp_without_support(
    v: PageView,
    info: Info,
    ntp_active: bool,
    list: Seq<Seq<char>>,
    tz: Seq<char>,
    new: PageView,
)
    requires
        reported(info, false, ntp_active, list, tz),
        steps_to(v, Message::Refresh(info), new),
    ensures
        !new.ntp_enabled,
{
}

/// Right after the 24-hour clock is switched on, the shown date is that of
/// the current sample on the 24-hour clock, and empty only where no sample
/// was ever had.
pub proof fn lemma_military_time_shown_at_once(v: PageView, new: PageView)
    requires
        shows_sample(v),
        steps_to(v, Message::MilitaryTime(true), new),
    ensures
        new.military_time,
        new.local_time is Some ==> new.formatted_date == date_text(
            new.lang,
            new.local_time->0,
            true,
        ),
        new.local_time is None ==> new.formatted_date.len() == 0,
        v.local_time is Some ==> new.local_time is Some,
{
}

/// Showing the date in the panel holds in memory whatever becomes of the
/// write that stores it: the action only asks to store the flag, and no
/// message but another `ShowDate` changes it.
pub proof fn lemma_show_date_not_rolled_back(
    v: PageView,
    a: Action,
    mid: PageView,
    msg: Message,
    end: PageView,
)
    requires
        steps_to(v, Message::ShowDate(true), mid),
        acts(v, Message::ShowDate(true), a),
        !(msg is ShowDate),
        steps_to(mid, msg, end),
    ensures
        a == Action::SaveShowDate(true),
        mid.show_date_in_top_panel,
        end.show_date_in_top_panel,
{
}

} // verus!

//! The view-state controller: the stage state machine of the page and
//! the serialized message-handling step that drives it.
//!
//! The controller is a pure reducer. Every user action and every
//! completed asynchronous service call arrives as a [`Msg`]; handling a
//! message updates the in-memory [`ControllerState`] and returns the
//! [`Effect`]s the surrounding shell must perform: persistence writes and
//! new service requests. The shell performs a request as a background
//! task and feeds its outcome back as a completion message carrying the
//! request-sequence number the request was issued with; a completion
//! whose number is no longer the latest issued for its family is
//! discarded, so a slow, stale task can never overwrite a fresher result.

use vstd::prelude::*;
use crate::grid::SchoolData;
use crate::selection::dec_val;
use crate::selection::is_dec_of;
use crate::selection::rehydrate_spec;
use crate::selection::rehydrate_component;
use crate::selection::parse_u8_dec;
use crate::selection::u8_to_dec_string;
use crate::selection::valid_dec;

verus! {

/// The coarse mode of the page.
#[derive(Clone, Copy, Debug, PartialEq, Eq, Structural)]
pub enum Stage {
    /// Startup: a cached school is being resolved.
    Loading,
    /// The search box is active and the result list is shown.
    Searching,
    /// A school's timetable is displayed.
    Viewing,
}

/// One candidate from a school search: region code, school code and the
/// display name shown in the result list.
#[derive(Clone, Debug, PartialEq)]
pub struct School {
    pub region_code: u32,
    pub school_code: u32,
    pub display_name: String,
}

/// The keys of the persistent string-valued store.
#[derive(Clone, Copy, Debug, PartialEq, Eq, Structural)]
pub enum StoreKey {
    SchoolName,
    Grade,
    Class,
}

/// The two families of asynchronous requests, each with its own
/// request-sequence counter.
#[derive(Clone, Copy, Debug, PartialEq, Eq, Structural)]
pub enum RequestFamily {
    /// Free-text school search filling the result list.
    Search,
    /// Resolving a name to one school and fetching its schedule.
    View,
}

/// A message the controller accepts: user actions and the completions of
/// background service calls.
#[derive(Clone, Debug, PartialEq)]
pub enum Msg {
    /// The user submitted free-text search.
    RequestSearch { text: String },
    /// A search task finished with the given candidates.
    SearchCompleted { seq: u64, schools: Vec<School> },
    /// The user committed text in the search box; it is remembered as the
    /// query behind a later view transition.
    SetInput { text: String },
    /// The user picked a school, by an explicit name or by the remembered
    /// input text.
    SelectSchool { custom: Option<String> },
    /// The search step of a resolution finished with the given candidates.
    ResolutionCompleted { seq: u64, schools: Vec<School> },
    /// The schedule fetch of a resolution finished with the school's data.
    ApplyViewedSchool { seq: u64, data: SchoolData },
    /// The user asked to change school.
    RequestChangeSchool,
    /// The user committed a new grade and/or class; `0` is the sentinel
    /// for "leave unchanged".
    UpdateSelection { grade: u8, school_class: u8 },
    /// A background service call failed with a user-visible message.
    ServiceFailed { family: RequestFamily, seq: u64, message: String },
}

/// An action the surrounding shell must perform after a message was
/// handled: a synchronous persistence write, or a new background request
/// tagged with its request-sequence number.
#[derive(Clone, Debug, PartialEq)]
pub enum Effect {
    /// Write `value` under `key` in the persistent store, before any
    /// later effect is started.
    Persist { key: StoreKey, value: String },
    /// Start a school search for `query`; report back with
    /// [`Msg::SearchCompleted`] or [`Msg::ServiceFailed`] carrying `seq`.
    StartSearch { seq: u64, query: String },
    /// Start resolving `query` to one school; report back with
    /// [`Msg::ResolutionCompleted`] or [`Msg::ServiceFailed`] carrying `seq`.
    StartResolve { seq: u64, query: String },
    /// Fetch the full schedule of `school`; report back with
    /// [`Msg::ApplyViewedSchool`] or [`Msg::ServiceFailed`] carrying `seq`.
    FetchSchedule { seq: u64, school: School },
}

/// The aggregate state of the page.
#[derive(Clone, Debug)]
pub struct ControllerState {
    /// The coarse mode governing which sub-view is rendered.
    pub stage: Stage,
    /// The currently viewed school, or a placeholder before the first
    /// successful view.
    pub data: SchoolData,
    /// The last search-result list.
    pub results: Vec<School>,
    /// The last committed search-box text, resolving which query a later
    /// view transition belongs to.
    pub pending_input: Option<String>,
    /// The selected grade, at least 1.
    pub grade: u8,
    /// The selected class, at least 1.
    pub school_class: u8,
    /// In-memory mirror of the persisted school name.
    pub cached_school_name: Option<String>,
    /// The latest request-sequence number issued for the search family.
    pub search_seq: u64,
    /// The latest request-sequence number issued for the view family.
    pub view_seq: u64,
    /// A user-visible error message, if the last service call failed.
    pub error: Option<String>,
}

/// The display name of the placeholder school shown before the first
/// successful view.
pub open spec fn placeholder_name() -> Seq<char> {
    "INVALID"@
}

/// The fixed "not found" placeholder row text shown in an empty result
/// list; clicking it must not dispatch anything.
pub open spec fn placeholder_text() -> Seq<char> {
    "없으면 추가 검색하세요"@
}

/// The error message attached when a name resolves to no school.
pub open spec fn not_found_text() -> Seq<char> {
    "school not found"@
}

/// The error message attached when a view transition is requested with
/// no query text at hand.
pub open spec fn no_query_text() -> Seq<char> {
    "no school name to search for"@
}

/// The store key under which each value is persisted.
pub open spec fn store_key_text(k: StoreKey) -> Seq<char> {
    match k {
        StoreKey::SchoolName => "school_name"@,
        StoreKey::Grade => "grade"@,
        StoreKey::Class => "class"@,
    }
}

/// The store key name handed to the persistent store.
pub fn store_key_name(k: StoreKey) -> (r: &'static str)
    ensures
        r@ == store_key_text(k),
{
    match k {
        StoreKey::SchoolName => "school_name",
        StoreKey::Grade => "grade",
        StoreKey::Class => "class",
    }
}

/// The fixed "not found" placeholder row text, for rendering.
pub fn placeholder_label() -> (r: String)
    ensures
        r@ == placeholder_text(),
{
    "없으면 추가 검색하세요".to_owned()
}

fn not_found_message() -> (r: String)
    ensures
        r@ == not_found_text(),
{
    "school not found".to_owned()
}

fn no_query_message() -> (r: String)
    ensures
        r@ == no_query_text(),
{
    "no school name to search for".to_owned()
}

/// The query text a view transition uses: the explicit name when one was
/// given, and the remembered search-box text otherwise.
pub open spec fn query_of(pre: ControllerState, custom: Option<String>) -> Option<String> {
    match custom {
        Some(q) => Some(q),
        None => pre.pending_input,
    }
}

/// Whether the incoming school is the one whose selection was cached.
pub open spec fn same_school(pre: ControllerState, data: SchoolData) -> bool {
    match pre.cached_school_name {
        Some(n) => n@ == data.name@,
        None => false,
    }
}

impl ControllerState {
    /// The state invariant: grade and class are real values, never the
    /// `0` sentinel.
    pub open spec fn wf(self) -> bool {
        &&& self.grade >= 1
        &&& self.school_class >= 1
    }
}

/// What handling [`Msg::RequestSearch`] does: a fresh search-family
/// sequence number is issued and the search is started; nothing else
/// changes, and the stage stays as it was.
pub open spec fn request_search_post(
    pre: ControllerState,
    post: ControllerState,
    text: String,
    effects: Seq<Effect>,
) -> bool {
    &&& post.search_seq == pre.search_seq + 1
    &&& post.stage == pre.stage
    &&& post.data == pre.data
    &&& post.results == pre.results
    &&& post.pending_input == pre.pending_input
    &&& post.grade == pre.grade
    &&& post.school_class == pre.school_class
    &&& post.cached_school_name == pre.cached_school_name
    &&& post.view_seq == pre.view_seq
    &&& post.error == pre.error
    &&& effects.len() == 1
    &&& effects[0] matches Effect::StartSearch { seq, query } && seq == post.search_seq && query
        == text
}

/// What handling [`Msg::SearchCompleted`] does: a completion carrying the
/// latest search-family sequence number replaces the result list and
/// clears any error; a stale one is discarded without a trace.
pub open spec fn search_completed_post(
    pre: ControllerState,
    post: ControllerState,
    seq: u64,
    schools: Vec<School>,
    effects: Seq<Effect>,
) -> bool {
    &&& effects.len() == 0
    &&& if seq == pre.search_seq {
        &&& post.results == schools
        &&& post.error is None
        &&& post.stage == pre.stage
        &&& post.data == pre.data
        &&& post.pending_input == pre.pending_input
        &&& post.grade == pre.grade
        &&& post.school_class == pre.school_class
        &&& post.cached_school_name == pre.cached_school_name
        &&& post.search_seq == pre.search_seq
        &&& post.view_seq == pre.view_seq
    } else {
        post == pre
    }
}

/// What handling [`Msg::SetInput`] does: the committed text is
/// remembered; nothing else changes.
pub open spec fn set_input_post(
    pre: ControllerState,
    post: ControllerState,
    text: String,
    effects: Seq<Effect>,
) -> bool {
    &&& effects.len() == 0
    &&& post.pending_input == Some(text)
    &&& post.stage == pre.stage
    &&& post.data == pre.data
    &&& post.results == pre.results
    &&& post.grade == pre.grade
    &&& post.school_class == pre.school_class
    &&& post.cached_school_name == pre.cached_school_name
    &&& post.search_seq == pre.search_seq
    &&& post.view_seq == pre.view_seq
    &&& post.error == pre.error
}

/// What handling [`Msg::SelectSchool`] does: with a query at hand, a
/// fresh view-family sequence number is issued and resolution is
/// started; with none, an error message is attached and nothing is
/// dispatched.
pub open spec fn select_school_post(
    pre: ControllerState,
    post: ControllerState,
    custom: Option<String>,
    effects: Seq<Effect>,
) -> bool {
    &&& post.stage == pre.stage
    &&& post.data == pre.data
    &&& post.results == pre.results
    &&& post.pending_input == pre.pending_input
    &&& post.grade == pre.grade
    &&& post.school_class == pre.school_class
    &&& post.cached_school_name == pre.cached_school_name
    &&& post.search_seq == pre.search_seq
    &&& match query_of(pre, custom) {
        Some(q) => {
            &&& post.view_seq == pre.view_seq + 1
            &&& post.error is None
            &&& effects.len() == 1
            &&& effects[0] matches Effect::StartResolve { seq, query } && seq == post.view_seq
                && query == q
        },
        None => {
            &&& post.view_seq == pre.view_seq
            &&& post.error matches Some(m) && m@ == no_query_text()
            &&& effects.len() == 0
        },
    }
}

/// What handling [`Msg::ResolutionCompleted`] does: a fresh completion
/// with no candidate surfaces "school not found" and returns the user to
/// searching; a fresh completion with candidates fetches the schedule of
/// the first one; a stale completion is discarded.
pub open spec fn resolution_completed_post(
    pre: ControllerState,
    post: ControllerState,
    seq: u64,
    schools: Vec<School>,
    effects: Seq<Effect>,
) -> bool {
    if seq == pre.view_seq {
        if schools@.len() == 0 {
            &&& effects.len() == 0
            &&& post.stage is Searching
            &&& post.error matches Some(m) && m@ == not_found_text()
            &&& post.data == pre.data
            &&& post.results == pre.results
            &&& post.pending_input == pre.pending_input
            &&& post.grade == pre.grade
            &&& post.school_class == pre.school_class
            &&& post.cached_school_name == pre.cached_school_name
            &&& post.search_seq == pre.search_seq
            &&& post.view_seq == pre.view_seq
        } else {
            &&& post == pre
            &&& effects.len() == 1
            &&& effects[0] matches Effect::FetchSchedule { seq: s, school } && s == seq && school
                == schools@[0]
        }
    } else {
        &&& post == pre
        &&& effects.len() == 0
    }
}

/// What handling [`Msg::ApplyViewedSchool`] does, the heart of the
/// state machine: a fresh completion persists the school name, resets
/// grade and class to 1 exactly when the school differs from the cached
/// one, clears the result list, the remembered input and any error, and
/// enters the viewing stage; a stale completion is discarded.
pub open spec fn apply_viewed_school_post(
    pre: ControllerState,
    post: ControllerState,
    seq: u64,
    data: SchoolData,
    effects: Seq<Effect>,
) -> bool {
    if seq == pre.view_seq {
        &&& post.grade == if same_school(pre, data) {
            pre.grade
        } else {
            1u8
        }
        &&& post.school_class == if same_school(pre, data) {
            pre.school_class
        } else {
            1u8
        }
        &&& post.data == data
        &&& post.stage is Viewing
        &&& post.results@.len() == 0
        &&& post.pending_input is None
        &&& post.cached_school_name matches Some(n) && n@ == data.name@
        &&& post.error is None
        &&& post.search_seq == pre.search_seq
        &&& post.view_seq == pre.view_seq
        &&& effects.len() == 1
        &&& effects[0] matches Effect::Persist { key, value } && key == StoreKey::SchoolName
            && value@ == data.name@
    } else {
        &&& post == pre
        &&& effects.len() == 0
    }
}

/// What handling [`Msg::RequestChangeSchool`] does: the page returns to
/// searching and the result list is cleared; the selection stays.
pub open spec fn request_change_school_post(
    pre: ControllerState,
    post: ControllerState,
    effects: Seq<Effect>,
) -> bool {
    &&& effects.len() == 0
    &&& post.stage is Searching
    &&& post.results@.len() == 0
    &&& post.data == pre.data
    &&& post.pending_input == pre.pending_input
    &&& post.grade == pre.grade
    &&& post.school_class == pre.school_class
    &&& post.cached_school_name == pre.cached_school_name
    &&& post.search_seq == pre.search_seq
    &&& post.view_seq == pre.view_seq
    &&& post.error == pre.error
}

/// What handling [`Msg::UpdateSelection`] does: each non-sentinel
/// argument is applied and persisted as its canonical decimal string, a
/// `0` argument leaves its component untouched, and nothing else
/// changes.
pub open spec fn update_selection_post(
    pre: ControllerState,
    post: ControllerState,
    grade: u8,
    school_class: u8,
    effects: Seq<Effect>,
) -> bool {
    &&& post.grade == if grade != 0 {
        grade
    } else {
        pre.grade
    }
    &&& post.school_class == if school_class != 0 {
        school_class
    } else {
        pre.school_class
    }
    &&& post.stage == pre.stage
    &&& post.data == pre.data
    &&& post.results == pre.results
    &&& post.pending_input == pre.pending_input
    &&& post.cached_school_name == pre.cached_school_name
    &&& post.search_seq == pre.search_seq
    &&& post.view_seq == pre.view_seq
    &&& post.error == pre.error
    &&& effects.len() == (if grade != 0 {
        1int
    } else {
        0int
    }) + (if school_class != 0 {
        1int
    } else {
        0int
    })
    &&& grade != 0 ==> (effects[0] matches Effect::Persist { key, value } && key == StoreKey::Grade
        && is_dec_of(value@, grade as int))
    &&& school_class != 0 ==> (effects[effects.len() - 1] matches Effect::Persist { key, value }
        && key == StoreKey::Class && is_dec_of(value@, school_class as int))
}

/// What handling [`Msg::ServiceFailed`] does: a failure of the latest
/// request of its family attaches its message and leaves the stage as it
/// was, so the user may retry; a stale failure is discarded.
pub open spec fn service_failed_post(
    pre: ControllerState,
    post: ControllerState,
    family: RequestFamily,
    seq: u64,
    message: String,
    effects: Seq<Effect>,
) -> bool {
    let current = match family {
        RequestFamily::Search => pre.search_seq,
        RequestFamily::View => pre.view_seq,
    };
    &&& effects.len() == 0
    &&& if seq == current {
        &&& post.error == Some(message)
        &&& post.stage == pre.stage
        &&& post.data == pre.data
        &&& post.results == pre.results
        &&& post.pending_input == pre.pending_input
        &&& post.grade == pre.grade
        &&& post.school_class == pre.school_class
        &&& post.cached_school_name == pre.cached_school_name
        &&& post.search_seq == pre.search_seq
        &&& post.view_seq == pre.view_seq
    } else {
        post == pre
    }
}

/// What one serialized message-handling step does, by message.
pub open spec fn transition(
    pre: ControllerState,
    post: ControllerState,
    msg: Msg,
    effects: Seq<Effect>,
) -> bool {
    match msg {
        Msg::RequestSearch { text } => request_search_post(pre, post, text, effects),
        Msg::SearchCompleted { seq, schools } => search_completed_post(pre, post, seq, schools, effects),
        Msg::SetInput { text } => set_input_post(pre, post, text, effects),
        Msg::SelectSchool { custom } => select_school_post(pre, post, custom, effects),
        Msg::ResolutionCompleted { seq, schools } => resolution_completed_post(
            pre,
            post,
            seq,
            schools,
            effects,
        ),
        Msg::ApplyViewedSchool { seq, data } => apply_viewed_school_post(pre, post, seq, data, effects),
        Msg::RequestChangeSchool => request_change_school_post(pre, post, effects),
        Msg::UpdateSelection { grade, school_class } => update_selection_post(
            pre,
            post,
            grade,
            school_class,
            effects,
        ),
        Msg::ServiceFailed { family, seq, message } => service_failed_post(
            pre,
            post,
            family,
            seq,
            message,
            effects,
        ),
    }
}

impl ControllerState {
    /// Handles [`Msg::RequestSearch`].
    pub fn request_search(&mut self, text: String) -> (effects: Vec<Effect>)
        requires
            old(self).search_seq < u64::MAX,
        ensures
            request_search_post(*old(self), *final(self), text, effects@),
            final(self).wf() == old(self).wf(),
    {
        self.search_seq = self.search_seq + 1;
        let mut effects: Vec<Effect> = Vec::new();
        effects.push(Effect::StartSearch { seq: self.search_seq, query: text });
        effects
    }

    /// Handles [`Msg::SearchCompleted`].
    pub fn search_completed(&mut self, seq: u64, schools: Vec<School>) -> (effects: Vec<Effect>)
        ensures
            search_completed_post(*old(self), *final(self), seq, schools, effects@),
            final(self).wf() == old(self).wf(),
    {
        if seq == self.search_seq {
            self.results = schools;
            self.error = None;
        }
        Vec::new()
    }

    /// Handles [`Msg::SetInput`].
    pub fn set_input(&mut self, text: String) -> (effects: Vec<Effect>)
        ensures
            set_input_post(*old(self), *final(self), text, effects@),
            final(self).wf() == old(self).wf(),
    {
        self.pending_input = Some(text);
        Vec::new()
    }

    /// Handles [`Msg::SelectSchool`].
    pub fn select_school(&mut self, custom: Option<String>) -> (effects: Vec<Effect>)
        requires
            old(self).view_seq < u64::MAX,
        ensures
            select_school_post(*old(self), *final(self), custom, effects@),
            final(self).wf() == old(self).wf(),
    {
        let query: Option<String> = match custom {
            Some(q) => Some(q),
            None => match &self.pending_input {
                Some(p) => Some(p.clone()),
                None => None,
            },
        };
        let mut effects: Vec<Effect> = Vec::new();
        match query {
            Some(q) => {
                self.view_seq = self.view_seq + 1;
                self.error = None;
                effects.push(Effect::StartResolve { seq: self.view_seq, query: q });
            },
            None => {
                self.error = Some(no_query_message());
            },
        }
        effects
    }

    /// Handles [`Msg::ResolutionCompleted`].
    pub fn resolution_completed(&mut self, seq: u64, schools: Vec<School>) -> (effects: Vec<
        Effect,
    >)
        ensures
            resolution_completed_post(*old(self), *final(self), seq, schools, effects@),
            final(self).wf() == old(self).wf(),
    {
        let mut effects: Vec<Effect> = Vec::new();
        if seq != self.view_seq {
            return effects;
        }
        let mut remaining = schools;
        if remaining.len() == 0 {
            self.stage = Stage::Searching;
            self.error = Some(not_found_message());
            return effects;
        }
        let first = remaining.remove(0);
        effects.push(Effect::FetchSchedule { seq, school: first });
        effects
    }

    /// Handles [`Msg::ApplyViewedSchool`].
    pub fn apply_viewed_school(&mut self, seq: u64, data: SchoolData) -> (effects: Vec<Effect>)
        ensures
            apply_viewed_school_post(*old(self), *final(self), seq, data, effects@),
            old(self).wf() ==> final(self).wf(),
    {
        let mut effects: Vec<Effect> = Vec::new();
        if seq != self.view_seq {
            return effects;
        }
        let same = match &self.cached_school_name {
            Some(n) => n.eq(&data.name),
            None => false,
        };
        if !same {
            self.grade = 1;
            self.school_class = 1;
        }
        effects.push(Effect::Persist { key: StoreKey::SchoolName, value: data.name.clone() });
        self.cached_school_name = Some(data.name.clone());
        self.data = data;
        self.results = Vec::new();
        self.pending_input = None;
        self.stage = Stage::Viewing;
        self.error = None;
        effects
    }

    /// Handles [`Msg::RequestChangeSchool`].
    pub fn request_change_school(&mut self) -> (effects: Vec<Effect>)
        ensures
            request_change_school_post(*old(self), *final(self), effects@),
            final(self).wf() == old(self).wf(),
    {
        self.stage = Stage::Searching;
        self.results = Vec::new();
        Vec::new()
    }

    /// Handles [`Msg::UpdateSelection`].
    pub fn update_selection(&mut self, grade: u8, school_class: u8) -> (effects: Vec<Effect>)
        ensures
            update_selection_post(*old(self), *final(self), grade, school_class, effects@),
            old(self).wf() ==> final(self).wf(),
    {
        let mut effects: Vec<Effect> = Vec::new();
        if grade != 0 {
            self.grade = grade;
            effects.push(
                Effect::Persist { key: StoreKey::Grade, value: u8_to_dec_string(grade) },
            );
        }
        if school_class != 0 {
            self.school_class = school_class;
            effects.push(
                Effect::Persist { key: StoreKey::Class, value: u8_to_dec_string(school_class) },
            );
        }
        effects
    }

    /// Handles [`Msg::ServiceFailed`].
    pub fn service_failed(&mut self, family: RequestFamily, seq: u64, message: String) -> (effects:
        Vec<Effect>)
        ensures
            service_failed_post(*old(self), *final(self), family, seq, message, effects@),
            final(self).wf() == old(self).wf(),
    {
        let current = match family {
            RequestFamily::Search => self.search_seq,
            RequestFamily::View => self.view_seq,
        };
        if seq == current {
            self.error = Some(message);
        }
        Vec::new()
    }

    /// The serialized message-handling step: applies one message and
    /// returns the effects the shell must perform.
    pub fn update(&mut self, msg: Msg) -> (effects: Vec<Effect>)
        requires
            old(self).wf(),
            msg matches Msg::RequestSearch { .. } ==> old(self).search_seq < u64::MAX,
            msg matches Msg::SelectSchool { .. } ==> old(self).view_seq < u64::MAX,
        ensures
            final(self).wf(),
            transition(*old(self), *final(self), msg, effects@),
    {
        match msg {
            Msg::RequestSearch { text } => self.request_search(text),
            Msg::SearchCompleted { seq, schools } => self.search_completed(seq, schools),
            Msg::SetInput { text } => self.set_input(text),
            Msg::SelectSchool { custom } => self.select_school(custom),
            Msg::ResolutionCompleted { seq, schools } => self.resolution_completed(seq, schools),
            Msg::ApplyViewedSchool { seq, data } => self.apply_viewed_school(seq, data),
            Msg::RequestChangeSchool => self.request_change_school(),
            Msg::UpdateSelection { grade, school_class } => self.update_selection(
                grade,
                school_class,
            ),
            Msg::ServiceFailed { family, seq, message } => self.service_failed(
                family,
                seq,
                message,
            ),
        }
    }
}

/// Creates the controller from the persisted selection, as read from the
/// store at startup.
///
/// Grade and class are restored with a fallback to 1 on anything that is
/// not a positive number, so a corrupt store never aborts startup. When
/// a school name was persisted, its resolution is started at once and
/// the page stays in the loading stage on its way to viewing, never
/// passing through a user-facing searching stage; without one the page
/// starts searching.
pub fn create(
    school_name: Option<String>,
    grade_value: Option<String>,
    class_value: Option<String>,
) -> (r: (ControllerState, Vec<Effect>))
    ensures
        r.0.wf(),
        r.0.grade as int == rehydrate_spec(grade_value),
        r.0.school_class as int == rehydrate_spec(class_value),
        r.0.data.name@ == placeholder_name(),
        r.0.data.grid.entries@.len() == 0,
        r.0.results@.len() == 0,
        r.0.pending_input is None,
        r.0.error is None,
        r.0.search_seq == 0,
        r.0.cached_school_name == school_name,
        match school_name {
            Some(name) => {
                &&& r.0.stage is Loading
                &&& r.0.view_seq == 1
                &&& r.1@.len() == 1
                &&& r.1@[0] matches Effect::StartResolve { seq, query } && seq == 1 && query@
                    == name@
            },
            None => {
                &&& r.0.stage is Searching
                &&& r.0.view_seq == 0
                &&& r.1@.len() == 0
            },
        },
{
    let grade = rehydrate_component(&grade_value);
    let school_class = rehydrate_component(&class_value);
    let mut effects: Vec<Effect> = Vec::new();
    let stage: Stage;
    let view_seq: u64;
    let cached_school_name: Option<String>;
    match school_name {
        Some(name) => {
            effects.push(Effect::StartResolve { seq: 1, query: name.clone() });
            cached_school_name = Some(name);
            stage = Stage::Loading;
            view_seq = 1;
        },
        None => {
            cached_school_name = None;
            stage = Stage::Searching;
            view_seq = 0;
        },
    }
    let state = ControllerState {
        stage,
        data: SchoolData::new("INVALID"),
        results: Vec::new(),
        pending_input: None,
        grade,
        school_class,
        cached_school_name,
        search_seq: 0,
        view_seq,
        error: None,
    };
    (state, effects)
}

/// The message a click on a search-result row dispatches: none at all
/// for the fixed "not found" placeholder row, and a view transition for
/// the clicked school's name otherwise.
pub fn school_click_message(label: &String) -> (r: Option<Msg>)
    ensures
        r is None <==> label@ == placeholder_text(),
        r matches Some(m) ==> m matches Msg::SelectSchool { custom } && custom matches Some(q)
            && q@ == label@,
{
    let placeholder = placeholder_label();
    if label.eq(&placeholder) {
        None
    } else {
        Some(Msg::SelectSchool { custom: Some(label.clone()) })
    }
}

/// The message a committed grade edit dispatches: an update of the grade
/// alone when the text is a positive number that fits, and none
/// otherwise.
pub fn grade_edit_message(text: &String) -> (r: Option<Msg>)
    ensures
        r is Some <==> valid_dec(text@) && 1 <= dec_val(text@) <= 255,
        r matches Some(m) ==> m matches Msg::UpdateSelection { grade, school_class } && grade as int
            == dec_val(text@) && school_class == 0,
{
    match parse_u8_dec(text) {
        Some(v) => if v >= 1 {
            Some(Msg::UpdateSelection { grade: v, school_class: 0 })
        } else {
            None
        },
        None => None,
    }
}

/// The message a committed class edit dispatches: an update of the class
/// alone when the text is a positive number that fits, and none
/// otherwise.
pub fn class_edit_message(text: &String) -> (r: Option<Msg>)
    ensures
        r is Some <==> valid_dec(text@) && 1 <= dec_val(text@) <= 255,
        r matches Some(m) ==> m matches Msg::UpdateSelection { grade, school_class }
            && school_class as int == dec_val(text@) && grade == 0,
{
    match parse_u8_dec(text) {
        Some(v) => if v >= 1 {
            Some(Msg::UpdateSelection { grade: 0, school_class: v })
        } else {
            None
        },
        None => None,
    }
}

} // verus!

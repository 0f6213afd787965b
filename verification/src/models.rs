//! The tracked job applications and the form that edits them.
use crate::calendar::{clock_utc_now, DateTime};
use vstd::prelude::*;

verus! {

/// Where an application stands.
#[derive(Clone, Copy, Debug, PartialEq, Eq, Structural)]
pub enum ApplicationStatus {
    Applied,
    Rejected,
    Accepted,
    AwaitingRecruiter,
    Ghosted,
    ThinkingAboutIt,
    InterviewScheduled,
}

/// The number of statuses, the length of `ApplicationStatus::ALL`.
pub const STATUS_COUNT: usize = 7;

impl ApplicationStatus {
    /// Every status, in the order in which the status picker lists them.
    pub const ALL: [ApplicationStatus; 7] = [
        ApplicationStatus::Applied,
        ApplicationStatus::Rejected,
        ApplicationStatus::Accepted,
        ApplicationStatus::AwaitingRecruiter,
        ApplicationStatus::Ghosted,
        ApplicationStatus::ThinkingAboutIt,
        ApplicationStatus::InterviewScheduled,
    ];

    /// The status at position `i` of `ALL`.
    pub open spec fn nth(i: int) -> ApplicationStatus {
        if i == 0 {
            ApplicationStatus::Applied
        } else if i == 1 {
            ApplicationStatus::Rejected
        } else if i == 2 {
            ApplicationStatus::Accepted
        } else if i == 3 {
            ApplicationStatus::AwaitingRecruiter
        } else if i == 4 {
            ApplicationStatus::Ghosted
        } else if i == 5 {
            ApplicationStatus::ThinkingAboutIt
        } else {
            ApplicationStatus::InterviewScheduled
        }
    }

    /// The status at position `index` of `ALL`, if there is one.
    pub fn from_index(index: usize) -> (r: Option<ApplicationStatus>)
        ensures
            r == (if index < STATUS_COUNT {
                Some(ApplicationStatus::nth(index as int))
            } else {
                None
            }),
    {
        if index < STATUS_COUNT {
            let all = ApplicationStatus::ALL;
            Some(all[index])
        } else {
            None
        }
    }

    /// The text shown for a status.
    pub open spec fn spec_label(self) -> Seq<char> {
        match self {
            ApplicationStatus::Applied => "Applied"@,
            ApplicationStatus::Rejected => "Rejected"@,
            ApplicationStatus::AwaitingRecruiter => "Awaiting recruiter"@,
            ApplicationStatus::Accepted => "Accepted"@,
            ApplicationStatus::Ghosted => "Ghosted"@,
            ApplicationStatus::ThinkingAboutIt => "Thinking about it"@,
            ApplicationStatus::InterviewScheduled => "Interview scheduled"@,
        }
    }

    /// The text shown for a status.
    pub fn label(&self) -> (r: &'static str)
        ensures
            r@ == self.spec_label(),
    {
        match self {
            ApplicationStatus::Applied => "Applied",
            ApplicationStatus::Rejected => "Rejected",
            ApplicationStatus::AwaitingRecruiter => "Awaiting recruiter",
            ApplicationStatus::Accepted => "Accepted",
            ApplicationStatus::Ghosted => "Ghosted",
            ApplicationStatus::ThinkingAboutIt => "Thinking about it",
            ApplicationStatus::InterviewScheduled => "Interview scheduled",
        }
    }
}

/// A job application that is being tracked.
#[derive(Debug)]
pub struct Application {
    pub company_name: String,
    pub description: String,
    pub url: String,
    pub comments: String,
    pub application_status: ApplicationStatus,
    pub origin: String,
    pub application_date: DateTime,
    pub interview_date: Option<DateTime>,
}

/// An application as a mathematical value.
pub struct ApplicationView {
    pub company_name: Seq<char>,
    pub description: Seq<char>,
    pub url: Seq<char>,
    pub comments: Seq<char>,
    pub application_status: ApplicationStatus,
    pub origin: Seq<char>,
    pub application_date: DateTime,
    pub interview_date: Option<DateTime>,
}

impl View for Application {
    type V = ApplicationView;

    open spec fn view(&self) -> ApplicationView {
        ApplicationView {
            company_name: self.company_name@,
            description: self.description@,
            url: self.url@,
            comments: self.comments@,
            application_status: self.application_status,
            origin: self.origin@,
            application_date: self.application_date,
            interview_date: self.interview_date,
        }
    }
}

/// The views of a list of applications, in order.
pub open spec fn views(items: Seq<Application>) -> Seq<ApplicationView> {
    items.map_values(|a: Application| a@)
}

/// The contents of the create/edit form.
#[derive(Debug)]
pub struct InputApplication {
    pub company_name: String,
    pub description: String,
    pub url: String,
    pub origin: String,
    pub comments: String,
    pub interview_date: Option<DateTime>,
    pub input_field: usize,
}

/// The form as a mathematical value.
pub struct InputView {
    pub company_name: Seq<char>,
    pub description: Seq<char>,
    pub url: Seq<char>,
    pub origin: Seq<char>,
    pub comments: Seq<char>,
    pub interview_date: Option<DateTime>,
    pub input_field: usize,
}

impl View for InputApplication {
    type V = InputView;

    open spec fn view(&self) -> InputView {
        InputView {
            company_name: self.company_name@,
            description: self.description@,
            url: self.url@,
            origin: self.origin@,
            comments: self.comments@,
            interview_date: self.interview_date,
            input_field: self.input_field,
        }
    }
}

/// The empty form: no text, no interview date, the first field selected.
pub open spec fn empty_input() -> InputView {
    InputView {
        company_name: Seq::empty(),
        description: Seq::empty(),
        url: Seq::empty(),
        origin: Seq::empty(),
        comments: Seq::empty(),
        interview_date: None,
        input_field: 0,
    }
}

impl ApplicationView {
    /// The application with its editable fields taken from the form; the
    /// status and the application date stay.
    pub open spec fn updated(self, v: InputView) -> ApplicationView {
        ApplicationView {
            company_name: v.company_name,
            description: v.description,
            origin: v.origin,
            url: v.url,
            comments: v.comments,
            interview_date: v.interview_date,
            ..self
        }
    }

    /// A new application made from the form at time `now`: it starts as
    /// `Applied`, dated `now`.
    pub open spec fn from_input(v: InputView, now: DateTime) -> ApplicationView {
        ApplicationView {
            company_name: v.company_name,
            description: v.description,
            origin: v.origin,
            url: v.url,
            comments: v.comments,
            application_status: ApplicationStatus::Applied,
            application_date: now,
            interview_date: v.interview_date,
        }
    }
}

impl InputView {
    /// The form filled from an application, with the first field selected.
    pub open spec fn from_application(a: ApplicationView) -> InputView {
        InputView {
            company_name: a.company_name,
            description: a.description,
            url: a.url,
            origin: a.origin,
            comments: a.comments,
            interview_date: a.interview_date,
            input_field: 0,
        }
    }
}

impl Application {
    /// Replaces the editable fields with those of the form.
    pub fn update(&mut self, v: &InputApplication)
        ensures
            final(self)@ == old(self)@.updated(v@),
    {
        self.company_name = v.company_name.clone();
        self.description = v.description.clone();
        self.origin = v.origin.clone();
        self.url = v.url.clone();
        self.comments = v.comments.clone();
        self.interview_date = v.interview_date;
    }

    /// A new application from the form, dated `now`.
    pub fn from_input_at(v: InputApplication, now: DateTime) -> (r: Application)
        ensures
            r@ == ApplicationView::from_input(v@, now),
    {
        Application {
            company_name: v.company_name,
            description: v.description,
            origin: v.origin,
            url: v.url,
            comments: v.comments,
            application_status: ApplicationStatus::Applied,
            application_date: now,
            interview_date: v.interview_date,
        }
    }

    /// A new application from the form, dated with the current UTC time.
    pub fn from_input(v: InputApplication) -> (r: Application)
        ensures
            r@ == ApplicationView::from_input(v@, r.application_date),
    {
        let now = clock_utc_now();
        Application::from_input_at(v, now)
    }
}

impl InputApplication {
    /// Empties every text field, drops the interview date and selects the
    /// first field.
    pub fn clear(&mut self)
        ensures
            final(self)@ == empty_input(),
    {
        self.company_name = String::new();
        self.description = String::new();
        self.url = String::new();
        self.origin = String::new();
        self.comments = String::new();
        self.interview_date = None;
        self.input_field = 0;
    }
}

impl Clone for Application {
    fn clone(&self) -> (r: Self)
        ensures
            r@ == self@,
    {
        Application {
            company_name: self.company_name.clone(),
            description: self.description.clone(),
            url: self.url.clone(),
            comments: self.comments.clone(),
            application_status: self.application_status,
            origin: self.origin.clone(),
            application_date: self.application_date,
            interview_date: self.interview_date,
        }
    }
}

impl Clone for InputApplication {
    fn clone(&self) -> (r: Self)
        ensures
            r@ == self@,
    {
        InputApplication {
            company_name: self.company_name.clone(),
            description: self.description.clone(),
            url: self.url.clone(),
            origin: self.origin.clone(),
            comments: self.comments.clone(),
            interview_date: self.interview_date,
            input_field: self.input_field,
        }
    }
}

impl Default for InputApplication {
    fn default() -> (r: Self)
        ensures
            r@ == empty_input(),
    {
        InputApplication {
            company_name: String::new(),
            description: String::new(),
            url: String::new(),
            origin: String::new(),
            comments: String::new(),
            interview_date: None,
            input_field: 0,
        }
    }
}

impl<'a> From<&'a Application> for InputApplication {
    fn from(value: &'a Application) -> (r: Self)
        ensures
            r@ == InputView::from_application(value@),
    {
        InputApplication {
            company_name: value.company_name.clone(),
            description: value.description.clone(),
            url: value.url.clone(),
            origin: value.origin.clone(),
            comments: value.comments.clone(),
            interview_date: value.interview_date,
            input_field: 0,
        }
    }
}

impl<'a> vstd::std_specs::convert::FromSpecImpl<&'a Application> for InputApplication {
    open spec fn obeys_from_spec() -> bool {
        true
    }

    open spec fn from_spec(value: &'a Application) -> InputApplication {
        InputApplication {
            company_name: value.company_name,
            description: value.description,
            url: value.url,
            origin: value.origin,
            comments: value.comments,
            interview_date: value.interview_date,
            input_field: 0,
        }
    }
}

} // verus!

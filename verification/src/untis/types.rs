use vstd::prelude::*;

verus! {

/// Credentials of the `authenticate` call.
pub struct AuthParameter {
    pub user: String,
    pub password: String,
    pub client: String,
}

/// What Untis answers to `authenticate`.
pub struct LoginResults {
    pub session_id: String,
    pub person_type: u16,
    pub person_id: u16,
}

pub struct DateOptions {
    pub start_date: String,
    pub end_date: String,
}

pub struct DateParameter {
    pub options: DateOptions,
}

/// Whose timetable is asked for; `element_type` is the JSON field `type`.
pub struct TimetableElement {
    pub id: u16,
    pub element_type: u16,
    pub key_type: String,
}

pub struct TimetableOptions {
    pub element: TimetableElement,
    pub start_date: String,
    pub end_date: String,
    pub only_base_timetable: bool,
    pub show_booking: bool,
    pub show_info: bool,
    pub show_subst_text: bool,
    pub show_ls_text: bool,
    pub show_ls_number: bool,
    pub show_studentgroup: bool,
    pub klasse_fields: Vec<String>,
    pub room_fields: Vec<String>,
    pub subject_fields: Vec<String>,
    pub teacher_fields: Vec<String>,
}

pub struct TimetableParameter {
    pub options: TimetableOptions,
}

/// The `params` of a JSON-RPC call to Untis.
pub enum Parameter {
    AuthParameter(AuthParameter),
    DateParameter(DateParameter),
    TimetableParameter(TimetableParameter),
    Null(),
}

/// A JSON-RPC request to Untis.
pub struct UntisBody {
    pub school: String,
    pub id: String,
    pub method: String,
    pub params: Parameter,
    pub jsonrpc: String,
}

/// A class ("Klasse") as Untis lists it.
pub struct Klasse {
    pub id: u16,
    pub name: String,
    pub longname: String,
}

/// A teacher of a period; `orgname` is set when the period is substituted.
pub struct Teacher {
    pub id: u16,
    pub name: String,
    pub longname: String,
    pub orgid: Option<u16>,
    pub orgname: Option<String>,
}

pub struct Subject {
    pub id: u16,
    pub name: String,
    pub longname: String,
}

/// A room of a period; `orgname` is set when the period moved.
pub struct Room {
    pub id: u16,
    pub name: String,
    pub longname: String,
    pub orgid: Option<u16>,
    pub orgname: Option<String>,
}

/// One period of a timetable, as Untis returns it. Dates are `yyyymmdd`,
/// times `hhmm`.
pub struct PeriodObject {
    pub id: u32,
    pub date: u32,
    pub start_time: u16,
    pub end_time: u16,
    pub kl: Vec<Klasse>,
    pub te: Vec<Teacher>,
    pub su: Vec<Subject>,
    pub ro: Vec<Room>,
    pub activity_type: Option<String>,
    pub subst_text: Option<String>,
    pub lstext: Option<String>,
    pub code: Option<String>,
    pub sg: Option<String>,
}

pub struct DetailedSubject {
    pub id: u16,
    pub name: String,
    pub longname: String,
    pub fore_color: String,
    pub back_color: String,
}

pub struct Schoolyear {
    pub id: u16,
    pub name: String,
    pub start_date: String,
    pub end_date: String,
}

/// A holiday; dates are `yyyymmdd`.
pub struct Holidays {
    pub id: u16,
    pub name: String,
    pub longname: Option<String>,
    pub start_date: u32,
    pub end_date: u32,
}

pub struct TimeUnit {
    pub name: String,
    pub start_time: u16,
    pub end_time: u16,
}

/// The lesson slots of one week day.
pub struct TimegridUnits {
    pub day: u16,
    pub time_units: Vec<TimeUnit>,
}

/// What changed about a lesson.
#[derive(Debug, PartialEq)]
pub struct Substitution {
    pub teacher: Option<String>,
    pub room: Option<String>,
    pub substitution_text: Option<String>,
    pub cancelled: bool,
}

/// A lesson as the frontend shows it: `day` counts from Monday = 0, `start` is
/// the lesson slot counted from 1, `length` the number of slots.
#[derive(Debug, PartialEq)]
pub struct FormattedLesson {
    pub teacher: String,
    pub is_lb: bool,
    pub start: u8,
    pub length: u8,
    pub day: u8,
    pub subject: String,
    pub subject_short: String,
    pub room: String,
    pub substitution: Option<Substitution>,
}

/// A room that is free in one lesson slot.
#[derive(Debug, PartialEq)]
pub struct FormattedFreeRoom {
    pub room: String,
    pub day: usize,
    pub start: usize,
    pub length: usize,
}

/// The abstract value of a [`Substitution`].
pub struct SubstitutionView {
    pub teacher: Option<Seq<char>>,
    pub room: Option<Seq<char>>,
    pub substitution_text: Option<Seq<char>>,
    pub cancelled: bool,
}

/// The abstract value of a [`FormattedLesson`].
pub struct LessonView {
    pub teacher: Seq<char>,
    pub is_lb: bool,
    pub start: u8,
    pub length: u8,
    pub day: u8,
    pub subject: Seq<char>,
    pub subject_short: Seq<char>,
    pub room: Seq<char>,
    pub substitution: Option<SubstitutionView>,
}

pub open spec fn opt_view(o: Option<String>) -> Option<Seq<char>> {
    match o {
        Some(s) => Some(s@),
        None => None,
    }
}

impl View for Substitution {
    type V = SubstitutionView;

    open spec fn view(&self) -> SubstitutionView {
        SubstitutionView {
            teacher: opt_view(self.teacher),
            room: opt_view(self.room),
            substitution_text: opt_view(self.substitution_text),
            cancelled: self.cancelled,
        }
    }
}

pub open spec fn opt_sub_view(o: Option<Substitution>) -> Option<SubstitutionView> {
    match o {
        Some(s) => Some(s@),
        None => None,
    }
}

impl View for FormattedLesson {
    type V = LessonView;

    open spec fn view(&self) -> LessonView {
        LessonView {
            teacher: self.teacher@,
            is_lb: self.is_lb,
            start: self.start,
            length: self.length,
            day: self.day,
            subject: self.subject@,
            subject_short: self.subject_short@,
            room: self.room@,
            substitution: opt_sub_view(self.substitution),
        }
    }
}

pub open spec fn lessons_view(v: Seq<FormattedLesson>) -> Seq<LessonView> {
    v.map_values(|l: FormattedLesson| l@)
}

/// Copies an optional string.
pub fn clone_opt(o: &Option<String>) -> (res: Option<String>)
    ensures
        opt_view(res) == opt_view(*o),
{
    match o {
        Some(s) => Some(s.clone()),
        None => None,
    }
}

/// Copies a substitution.
pub fn clone_substitution(s: &Substitution) -> (res: Substitution)
    ensures
        res@ == s@,
{
    Substitution {
        teacher: clone_opt(&s.teacher),
        room: clone_opt(&s.room),
        substitution_text: clone_opt(&s.substitution_text),
        cancelled: s.cancelled,
    }
}

/// Copies an optional substitution.
pub fn clone_opt_substitution(o: &Option<Substitution>) -> (res: Option<Substitution>)
    ensures
        opt_sub_view(res) == opt_sub_view(*o),
{
    match o {
        Some(s) => Some(clone_substitution(s)),
        None => None,
    }
}

/// Copies a formatted lesson.
pub fn clone_lesson(l: &FormattedLesson) -> (res: FormattedLesson)
    ensures
        res@ == l@,
{
    FormattedLesson {
        teacher: l.teacher.clone(),
        is_lb: l.is_lb,
        start: l.start,
        length: l.length,
        day: l.day,
        subject: l.subject.clone(),
        subject_short: l.subject_short.clone(),
        room: l.room.clone(),
        substitution: clone_opt_substitution(&l.substitution),
    }
}

/// Marks the types that Untis sends as the single result of a call.
pub trait Result {}

/// Marks the types that Untis sends as a list of results.
pub trait ArrayResult {}

impl Result for LoginResults {}

impl ArrayResult for PeriodObject {}

impl ArrayResult for DetailedSubject {}

impl ArrayResult for Schoolyear {}

impl ArrayResult for Holidays {}

impl ArrayResult for TimegridUnits {}

impl ArrayResult for Klasse {}

/// A JSON-RPC answer of Untis with one result.
pub struct UntisResponse<T: Result> {
    pub id: String,
    pub result: T,
    pub jsonrpc: String,
}

/// A JSON-RPC answer of Untis with a list of results.
pub struct UntisArrayResponse<T: ArrayResult> {
    pub id: String,
    pub result: Vec<T>,
    pub jsonrpc: String,
}

/// A lesson in the older wire format, with wide numbers.
pub struct FormatedLesson {
    pub teacher: String,
    pub is_lb: bool,
    pub start: u32,
    pub length: u32,
    pub day: u32,
    pub subject: String,
    pub subject_short: String,
    pub room: String,
}

/// The Untis school the server works for.
pub struct GlobalUntisData {
    pub school: String,
    pub subdomain: String,
}

} // verus!

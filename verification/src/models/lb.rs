use vstd::prelude::*;

verus! {

/// A teacher as the database stores it: short name, long name and the subjects
/// the teacher offers lernbueros in. `id` is the record id.
pub struct Teacher {
    pub id: String,
    pub shortname: String,
    pub longname: String,
    pub lessons: Vec<String>,
}

/// A new teacher record.
pub struct TeacherCreate {
    pub shortname: String,
    pub longname: String,
    pub lessons: Vec<String>,
}

/// A lernbuero entered by hand.
pub struct ManualLB {
    pub id: String,
    pub teacher: String,
    pub room: String,
    pub start: u8,
    pub day: u8,
}

pub struct ManualLBCreate {
    pub teacher: String,
    pub room: String,
    pub start: u8,
    pub day: u8,
}

/// A lernbuero of the timetable that is to be hidden: the teacher's lernbuero
/// in slot `start` of day `day`.
pub struct ManualLBOverwrite {
    pub id: String,
    pub teacher: String,
    pub start: u8,
    pub day: u8,
}

pub struct ManualLBOverwriteCreate {
    pub teacher: String,
    pub start: u8,
    pub day: u8,
}

/// A school year group ("Jahrgang").
pub struct Jahrgang {
    pub id: String,
    pub name: String,
    pub active: bool,
}

pub struct JahrgangCreate {
    pub name: String,
    pub active: bool,
}

/// A room of the school, by name.
pub struct Room {
    pub id: String,
    pub name: String,
}

pub struct RoomCreate {
    pub name: String,
}

} // verus!

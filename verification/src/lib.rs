//! Two closed enumerations for a school timetable — academic subjects and
//! grade levels — with alias-table parsing, canonical rendering, numeric
//! tagging, and ordered iteration over the non-sentinel variants.

pub mod categories;

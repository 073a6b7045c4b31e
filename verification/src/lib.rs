//! A release-schedule planner: milestones grouped into phases, connected by
//! relative "behind / ahead of" relations, from which concrete due dates are
//! derived by a single backward-planning pass from one or more anchor dates.

pub mod builders;
pub mod cli;
pub mod date;
pub mod delta;
pub mod duration;
pub mod model;
pub mod numfmt;
pub mod plan;
pub mod render;

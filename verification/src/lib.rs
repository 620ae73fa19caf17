//! The skeleton of a medium-sized quadruped: the table of attributes that
//! shape it for each species, and the hierarchy of its bones.

pub mod attr;
pub mod body;
pub mod skeleton;

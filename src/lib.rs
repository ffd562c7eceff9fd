//! The group column of a directory listing: resolves an entry's group id,
//! decides the style that reflects the viewer's relation to the group, and
//! renders the cell as the group's name or its numeric id.
pub mod cell;
pub mod decimal;
pub mod groups;

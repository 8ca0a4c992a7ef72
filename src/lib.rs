//! Spectator camera control: the mode machine that follows the mouse
//! buttons, the choice of the camera that takes input, and the fixed-point
//! motion of a free-flying camera.
pub mod fixed;
pub mod mode;
pub mod selection;
pub mod control;
pub mod hints;

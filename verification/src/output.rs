//! The host side of the output: how the window is set up, what produces the
//! frames, and the frame rate that the window title shows.

use vstd::prelude::*;

verus! {

/// The settings of the output window.
pub struct OutputConfig {
    /// The title of the window.
    pub window_title: String,
    /// The width of a frame in pixels.
    pub width: isize,
    /// The height of a frame in pixels.
    pub height: isize,
    /// The number of frames shown per second.
    pub fps: isize,
    /// Whether emulation is held to the speed of the machine.
    pub enforce_speed: bool,
}

/// One frame of output: rows of pixels, three bytes (red, green, blue) each.
pub struct Frame {
    pub width: usize,
    pub height: usize,
    pub pixels: Vec<u8>,
}

/// What draws the frames that the window shows.
pub trait OutputProducer {
    /// Draws the next frame into `screen`.
    fn render_frame(&mut self, screen: &mut Frame);

    /// Is told that no more frames will be asked for.
    fn finish(&mut self);
}

/// The window title that shows a frame rate: the title, then ` - `, the
/// number of frames in decimal, and ` FPS`.
pub uninterp spec fn fps_title(title: Seq<char>, frames: int) -> Seq<char>;

/// `format!` with the pattern `"{} - {} FPS"`, which writes the title and
/// the number as `Display` does.
#[verifier::external_body]
fn format_title(title: &String, frames: isize) -> (r: String)
    ensures
        r@ == fps_title(title@, frames as int),
{
    format!("{} - {} FPS", title, frames)
}

/// The frame counter of the window.
pub struct Video {
    /// The settings the window was opened with.
    pub cfg: OutputConfig,
    /// The frames shown since the title was last brought up to date.
    pub fps_counter: isize,
}

impl Video {
    /// Counts one frame. `second_elapsed` says whether a second or more has
    /// passed since the title was last brought up to date: if so the new
    /// title is returned and the count starts again from zero.
    pub fn update_fps(&mut self, second_elapsed: bool) -> (title: Option<String>)
        requires
            old(self).fps_counter < isize::MAX,
        ensures
            final(self).cfg == old(self).cfg,
            second_elapsed ==> final(self).fps_counter == 0 && title.is_some() && title.unwrap()@
                == fps_title(old(self).cfg.window_title@, old(self).fps_counter + 1),
            !second_elapsed ==> final(self).fps_counter == old(self).fps_counter + 1
                && title.is_none(),
    {
        self.fps_counter = self.fps_counter + 1;
        if second_elapsed {
            let title = format_title(&self.cfg.window_title, self.fps_counter);
            self.fps_counter = 0;
            Some(title)
        } else {
            None
        }
    }
}

} // verus!

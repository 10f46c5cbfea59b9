//! FFmpeg command lines: capturing the screen and the webcam, merging the
//! captured files into the final video, and taking its thumbnail.

use vstd::prelude::*;

use crate::text::{
    all_digits, decimal, digits_value, i64_to_decimal, lemma_decimal_reads_back, push_decimal,
    signed_decimal, str_equal, u64_to_decimal,
};

verus! {

/// The characters of each string.
pub open spec fn views(v: Seq<String>) -> Seq<Seq<char>> {
    v.map_values(|s: String| s@)
}

/// The characters of each string slice.
pub open spec fn str_views(v: Seq<&str>) -> Seq<Seq<char>> {
    v.map_values(|s: &str| s@)
}

/// Owned copies of `parts`, in order.
pub fn to_args(parts: &[&str]) -> (r: Vec<String>)
    ensures
        views(r@) == str_views(parts@),
{
    let mut r: Vec<String> = Vec::new();
    let mut i: usize = 0;
    while i < parts.len()
        invariant
            i <= parts@.len(),
            r@.len() == i,
            views(r@) == str_views(parts@.take(i as int)),
        decreases parts@.len() - i,
    {
        let ghost before = r@;
        let s = String::from_str(parts[i]);
        r.push(s);
        proof {
            let goal = str_views(parts@.take(i + 1));
            assert(r@.len() == i + 1);
            assert(goal.len() == i + 1);
            assert forall|k: int| 0 <= k < r@.len() implies views(r@)[k] == goal[k] by {
                assert(views(r@)[k] == r@[k]@);
                assert(goal[k] == parts@.take(i + 1)[k]@);
                if k < i {
                    assert(r@[k] == before[k]);
                    assert(views(before)[k] == str_views(parts@.take(i as int))[k]);
                    assert(views(before)[k] == before[k]@);
                    assert(str_views(parts@.take(i as int))[k] == parts@.take(i as int)[k]@);
                } else {
                    assert(r@[k] == s);
                }
            }
            assert(views(r@) =~= goal);
        }
        i = i + 1;
    }
    assert(parts@.take(parts@.len() as int) =~= parts@);
    r
}

/// The arguments that make FFmpeg write the first frame of `video`,
/// scaled to 400 pixels wide, to the image `thumb`.
pub open spec fn thumbnail_args_of(video: Seq<char>, thumb: Seq<char>) -> Seq<Seq<char>> {
    seq![
        "-y"@,
        "-i"@,
        video,
        "-ss"@,
        "00:00:00.000"@,
        "-vframes"@,
        "1"@,
        "-vf"@,
        "scale=400:-1"@,
        thumb,
    ]
}

/// The FFmpeg arguments that take the thumbnail `thumb` of `video`.
pub fn thumbnail_args(video: &str, thumb: &str) -> (r: Vec<String>)
    ensures
        views(r@) == thumbnail_args_of(video@, thumb@),
{
    let parts = [
        "-y",
        "-i",
        video,
        "-ss",
        "00:00:00.000",
        "-vframes",
        "1",
        "-vf",
        "scale=400:-1",
        thumb,
    ];
    let r = to_args(&parts);
    assert(str_views(parts@) =~= thumbnail_args_of(video@, thumb@));
    r
}

/// The message a failed thumbnail run reports.
pub fn thumbnail_failure(video: &str) -> (r: String)
    ensures
        r@ == "Thumbnail generation failed for "@ + video@,
{
    let mut s = String::from_str("Thumbnail generation failed for ");
    s.append(video);
    s
}

/// Where the webcam picture goes on the screen, as an FFmpeg overlay
/// position: `br` bottom-right, `bl` bottom-left, `tr` top-right, `tl`
/// top-left; any other corner name means bottom-right.
pub open spec fn overlay_position_of(corner: Seq<char>) -> Seq<char> {
    if corner == "bl"@ {
        "20:H-h-20"@
    } else if corner == "tr"@ {
        "W-w-20:20"@
    } else if corner == "tl"@ {
        "20:20"@
    } else {
        "W-w-20:H-h-20"@
    }
}

/// The overlay position of the webcam picture for a corner name.
pub fn overlay_position(corner: &str) -> (r: &'static str)
    ensures
        r@ == overlay_position_of(corner@),
{
    if str_equal(corner, "br") {
        proof {
            reveal_strlit("br");
            reveal_strlit("bl");
            reveal_strlit("tr");
            reveal_strlit("tl");
            assert("br"@[1] != "bl"@[1]);
            assert("br"@[0] != "tr"@[0]);
            assert("br"@[0] != "tl"@[0]);
        }
        "W-w-20:H-h-20"
    } else if str_equal(corner, "bl") {
        "20:H-h-20"
    } else if str_equal(corner, "tr") {
        "W-w-20:20"
    } else if str_equal(corner, "tl") {
        "20:20"
    } else {
        "W-w-20:H-h-20"
    }
}

/// The filter graph that scales the webcam picture to 320x240, cuts it to a
/// circle, and lays it over the screen at `position`.
pub open spec fn overlay_filter_of(position: Seq<char>) -> Seq<char> {
    "[1:v]scale=320:240,format=yuva420p,geq=lum='p(X,Y)':a='if(lte(hypot(X-160,Y-120),120),255,0)'[webcam];[0:v][webcam]overlay="@
        + position + "[out]"@
}

/// The picture-in-picture filter graph for a corner name.
pub fn overlay_filter(corner: &str) -> (r: String)
    ensures
        r@ == overlay_filter_of(overlay_position_of(corner@)),
{
    let mut s = String::from_str(
        "[1:v]scale=320:240,format=yuva420p,geq=lum='p(X,Y)':a='if(lte(hypot(X-160,Y-120),120),255,0)'[webcam];[0:v][webcam]overlay=",
    );
    s.append(overlay_position(corner));
    s.append("[out]");
    s
}

/// How the captured files become the final video.
#[derive(Debug, PartialEq, Eq)]
pub enum MergePlan {
    /// Run FFmpeg with `args`; an unsuccessful exit fails with `failure`.
    Encode { args: Vec<String>, failure: String },
    /// Move the screen capture to the output (renaming it, or copying it
    /// where renaming fails).
    MoveScreen,
}

/// Merging the screen capture with the webcam capture and the microphone
/// recording.
pub open spec fn merge_all_args_of(
    screen: Seq<char>,
    webcam: Seq<char>,
    audio: Seq<char>,
    output: Seq<char>,
    filter: Seq<char>,
) -> Seq<Seq<char>> {
    seq![
        "-y"@,
        "-i"@,
        screen,
        "-i"@,
        webcam,
        "-i"@,
        audio,
        "-filter_complex"@,
        filter,
        "-map"@,
        "[out]"@,
        "-map"@,
        "2:a"@,
        "-c:v"@,
        "libx264"@,
        "-pix_fmt"@,
        "yuv420p"@,
        "-preset"@,
        "fast"@,
        "-crf"@,
        "22"@,
        "-c:a"@,
        "aac"@,
        "-b:a"@,
        "192k"@,
        output,
    ]
}

/// Adding the microphone recording to the screen capture, copying its video.
pub open spec fn merge_audio_args_of(screen: Seq<char>, audio: Seq<char>, output: Seq<char>) -> Seq<
    Seq<char>,
> {
    seq![
        "-y"@,
        "-i"@,
        screen,
        "-i"@,
        audio,
        "-c:v"@,
        "copy"@,
        "-c:a"@,
        "aac"@,
        "-b:a"@,
        "192k"@,
        output,
    ]
}

/// Laying the webcam capture over the screen capture, without sound.
pub open spec fn merge_webcam_args_of(
    screen: Seq<char>,
    webcam: Seq<char>,
    output: Seq<char>,
    filter: Seq<char>,
) -> Seq<Seq<char>> {
    seq![
        "-y"@,
        "-i"@,
        screen,
        "-i"@,
        webcam,
        "-filter_complex"@,
        filter,
        "-map"@,
        "[out]"@,
        "-c:v"@,
        "libx264"@,
        "-pix_fmt"@,
        "yuv420p"@,
        "-preset"@,
        "fast"@,
        "-crf"@,
        "22"@,
        output,
    ]
}

/// Whether `plan` runs FFmpeg with exactly `args` and reports `failure`.
pub open spec fn encodes(plan: MergePlan, args: Seq<Seq<char>>, failure: Seq<char>) -> bool {
    match plan {
        MergePlan::Encode { args: a, failure: f } => views(a@) == args && f@ == failure,
        MergePlan::MoveScreen => false,
    }
}

/// How `screen`, and the webcam and microphone captures where given, become
/// `output`, with the webcam picture in `corner`.
pub open spec fn merge_plan_matches(
    plan: MergePlan,
    screen: Seq<char>,
    webcam: Option<Seq<char>>,
    audio: Option<Seq<char>>,
    output: Seq<char>,
    corner: Seq<char>,
) -> bool {
    let filter = overlay_filter_of(overlay_position_of(corner));
    match (webcam, audio) {
        (Some(w), Some(a)) => encodes(
            plan,
            merge_all_args_of(screen, w, a, output, filter),
            "FFmpeg merge (screen+webcam+audio) failed"@,
        ),
        (None, Some(a)) => encodes(
            plan,
            merge_audio_args_of(screen, a, output),
            "FFmpeg merge (screen+audio) failed"@,
        ),
        (Some(w), None) => encodes(
            plan,
            merge_webcam_args_of(screen, w, output, filter),
            "FFmpeg merge (screen+webcam) failed"@,
        ),
        (None, None) => plan is MoveScreen,
    }
}

/// The characters of an optional string.
pub open spec fn opt_view(s: Option<&str>) -> Option<Seq<char>> {
    match s {
        Some(x) => Some(x@),
        None => None,
    }
}

/// Decides how the captured files become the final video `output`: with a
/// webcam capture, its picture is laid over the screen in `corner`; with a
/// microphone recording, it becomes the sound track; with neither, the
/// screen capture itself becomes the output.
pub fn merge_plan(
    screen: &str,
    webcam: Option<&str>,
    audio: Option<&str>,
    output: &str,
    corner: &str,
) -> (r: MergePlan)
    ensures
        merge_plan_matches(r, screen@, opt_view(webcam), opt_view(audio), output@, corner@),
{
    match (webcam, audio) {
        (Some(w), Some(a)) => {
            let filter = overlay_filter(corner);
            let parts = [
                "-y",
                "-i",
                screen,
                "-i",
                w,
                "-i",
                a,
                "-filter_complex",
                filter.as_str(),
                "-map",
                "[out]",
                "-map",
                "2:a",
                "-c:v",
                "libx264",
                "-pix_fmt",
                "yuv420p",
                "-preset",
                "fast",
                "-crf",
                "22",
                "-c:a",
                "aac",
                "-b:a",
                "192k",
                output,
            ];
            let args = to_args(&parts);
            assert(str_views(parts@) =~= merge_all_args_of(
                screen@,
                w@,
                a@,
                output@,
                filter@,
            ));
            MergePlan::Encode {
                args,
                failure: String::from_str("FFmpeg merge (screen+webcam+audio) failed"),
            }
        },
        (None, Some(a)) => {
            let parts = [
                "-y",
                "-i",
                screen,
                "-i",
                a,
                "-c:v",
                "copy",
                "-c:a",
                "aac",
                "-b:a",
                "192k",
                output,
            ];
            let args = to_args(&parts);
            assert(str_views(parts@) =~= merge_audio_args_of(screen@, a@, output@));
            MergePlan::Encode {
                args,
                failure: String::from_str("FFmpeg merge (screen+audio) failed"),
            }
        },
        (Some(w), None) => {
            let filter = overlay_filter(corner);
            let parts = [
                "-y",
                "-i",
                screen,
                "-i",
                w,
                "-filter_complex",
                filter.as_str(),
                "-map",
                "[out]",
                "-c:v",
                "libx264",
                "-pix_fmt",
                "yuv420p",
                "-preset",
                "fast",
                "-crf",
                "22",
                output,
            ];
            let args = to_args(&parts);
            assert(str_views(parts@) =~= merge_webcam_args_of(screen@, w@, output@, filter@));
            MergePlan::Encode {
                args,
                failure: String::from_str("FFmpeg merge (screen+webcam) failed"),
            }
        },
        (None, None) => MergePlan::MoveScreen,
    }
}

/// Whatever the captures, a merge reads the screen capture as its first
/// input and writes the final video as its last argument, overwriting it
/// (`-y`); only a session with neither webcam nor microphone capture skips
/// FFmpeg and moves the screen capture into place.
pub proof fn lemma_merge_reads_screen_writes_output(
    plan: MergePlan,
    screen: Seq<char>,
    webcam: Option<Seq<char>>,
    audio: Option<Seq<char>>,
    output: Seq<char>,
    corner: Seq<char>,
)
    requires
        merge_plan_matches(plan, screen, webcam, audio, output, corner),
    ensures
        match plan {
            MergePlan::Encode { args, failure: _ } => {
                &&& views(args@).len() > 3
                &&& views(args@)[0] == "-y"@
                &&& views(args@)[1] == "-i"@
                &&& views(args@)[2] == screen
                &&& views(args@).last() == output
            },
            MergePlan::MoveScreen => webcam is None && audio is None,
        },
{
}

/// A frame size as FFmpeg reads it: `<width>x<height>`.
pub open spec fn video_size_of(width: nat, height: nat) -> Seq<char> {
    decimal(width) + seq!['x'] + decimal(height)
}

/// The frame size `<width>x<height>`.
pub fn video_size(width: u32, height: u32) -> (r: String)
    ensures
        r@ == video_size_of(width as nat, height as nat),
{
    let mut s = String::new();
    push_decimal(&mut s, width as u64);
    s.append("x");
    push_decimal(&mut s, height as u64);
    proof {
        reveal_strlit("x");
        assert(s@ =~= video_size_of(width as nat, height as nat));
    }
    s
}

/// `s` reads as `width`, an `x`, then `height`, both in decimal digits.
pub open spec fn reads_as_size(s: Seq<char>, width: nat, height: nat) -> bool {
    exists|k: int|
        0 < k < s.len() - 1 && s[k] == 'x' && all_digits(#[trigger] s.take(k)) && digits_value(
            s.take(k),
        ) == width && all_digits(s.skip(k + 1)) && digits_value(s.skip(k + 1)) == height
}

/// The frame size handed to FFmpeg reads back as the width, then `x`, then
/// the height, for every width and height; the `x` is the only non-digit,
/// so nothing else reads it.
pub proof fn lemma_video_size_reads_back(width: nat, height: nat)
    ensures
        reads_as_size(video_size_of(width, height), width, height),
        forall|i: int, j: int|
            0 <= i < j < video_size_of(width, height).len() && video_size_of(width, height)[i]
                == 'x' ==> video_size_of(width, height)[j] != 'x',
{
    lemma_decimal_reads_back(width);
    lemma_decimal_reads_back(height);
    let dw = decimal(width);
    let dh = decimal(height);
    let s = video_size_of(width, height);
    let k = dw.len() as int;
    assert(s.take(k) =~= dw);
    assert(s.skip(k + 1) =~= dh);
    assert(s[k] == 'x');
    assert forall|i: int, j: int| 0 <= i < j < s.len() && s[i] == 'x' implies s[j] != 'x' by {
        if i < k {
            assert(s[i] == dw[i]);
            assert(crate::text::is_digit(dw[i]));
        } else if i > k {
            assert(s[i] == dh[i - k - 1]);
            assert(crate::text::is_digit(dh[i - k - 1]));
        } else {
            assert(s[j] == dh[j - k - 1]);
            assert(crate::text::is_digit(dh[j - k - 1]));
        }
    }
}

/// Encoding raw frames of `pixel_format` and `size`, read from standard
/// input at `fps` frames a second, to H.264 in `output`.
pub open spec fn raw_capture_args_of(
    pixel_format: Seq<char>,
    size: Seq<char>,
    fps: Seq<char>,
    output: Seq<char>,
) -> Seq<Seq<char>> {
    seq![
        "-y"@,
        "-f"@,
        "rawvideo"@,
        "-pixel_format"@,
        pixel_format,
        "-video_size"@,
        size,
        "-framerate"@,
        fps,
        "-i"@,
        "-"@,
        "-c:v"@,
        "libx264"@,
        "-pix_fmt"@,
        "yuv420p"@,
        "-preset"@,
        "ultrafast"@,
        "-tune"@,
        "zerolatency"@,
        "-crf"@,
        "23"@,
        output,
    ]
}

/// The FFmpeg arguments for raw frames in `pixel_format`.
fn raw_capture_args(pixel_format: &str, width: u32, height: u32, fps: u32, output: &str) -> (r: Vec<
    String,
>)
    ensures
        views(r@) == raw_capture_args_of(
            pixel_format@,
            video_size_of(width as nat, height as nat),
            decimal(fps as nat),
            output@,
        ),
{
    let size = video_size(width, height);
    let rate = u64_to_decimal(fps as u64);
    let parts = [
        "-y",
        "-f",
        "rawvideo",
        "-pixel_format",
        pixel_format,
        "-video_size",
        size.as_str(),
        "-framerate",
        rate.as_str(),
        "-i",
        "-",
        "-c:v",
        "libx264",
        "-pix_fmt",
        "yuv420p",
        "-preset",
        "ultrafast",
        "-tune",
        "zerolatency",
        "-crf",
        "23",
        output,
    ];
    let r = to_args(&parts);
    assert(str_views(parts@) =~= raw_capture_args_of(pixel_format@, size@, rate@, output@));
    r
}

/// The FFmpeg arguments that encode screen frames (RGBA, `width` x
/// `height`, `fps` a second, piped in) to `output`.
pub fn screen_capture_args(width: u32, height: u32, fps: u32, output: &str) -> (r: Vec<String>)
    ensures
        views(r@) == raw_capture_args_of(
            "rgba"@,
            video_size_of(width as nat, height as nat),
            decimal(fps as nat),
            output@,
        ),
{
    raw_capture_args("rgba", width, height, fps, output)
}

/// The FFmpeg arguments that encode webcam frames (RGB, `width` x `height`,
/// `fps` a second, piped in) to `output`.
pub fn webcam_capture_args(width: u32, height: u32, fps: u32, output: &str) -> (r: Vec<String>)
    ensures
        views(r@) == raw_capture_args_of(
            "rgb24"@,
            video_size_of(width as nat, height as nat),
            decimal(fps as nat),
            output@,
        ),
{
    raw_capture_args("rgb24", width, height, fps, output)
}

/// The raw capture command gives FFmpeg the frame size as the width, `x`
/// and the height, the frame rate as its decimal digits, reads frames from
/// standard input and writes the capture file last.
pub proof fn lemma_raw_capture_reads_back(
    pixel_format: Seq<char>,
    width: nat,
    height: nat,
    fps: nat,
    output: Seq<char>,
)
    ensures
        ({
            let a = raw_capture_args_of(
                pixel_format,
                video_size_of(width, height),
                decimal(fps),
                output,
            );
            &&& a[5] == "-video_size"@
            &&& reads_as_size(a[6], width, height)
            &&& a[7] == "-framerate"@
            &&& all_digits(a[8]) && digits_value(a[8]) == fps
            &&& a[9] == "-i"@ && a[10] == "-"@
            &&& a[3] == "-pixel_format"@ && a[4] == pixel_format
            &&& a.last() == output
        }),
{
    lemma_video_size_reads_back(width, height);
    lemma_decimal_reads_back(fps);
}

/// Grabbing the desktop area at (`x`, `y`) of `size` with GDI at `fps`
/// frames a second and encoding it to H.264 in `output`.
pub open spec fn desktop_capture_args_of(
    fps: Seq<char>,
    x: Seq<char>,
    y: Seq<char>,
    size: Seq<char>,
    output: Seq<char>,
) -> Seq<Seq<char>> {
    seq![
        "-y"@,
        "-f"@,
        "gdigrab"@,
        "-framerate"@,
        fps,
        "-offset_x"@,
        x,
        "-offset_y"@,
        y,
        "-video_size"@,
        size,
        "-i"@,
        "desktop"@,
        "-c:v"@,
        "libx264"@,
        "-pix_fmt"@,
        "yuv420p"@,
        "-preset"@,
        "ultrafast"@,
        "-tune"@,
        "zerolatency"@,
        "-crf"@,
        "25"@,
        output,
    ]
}

/// The desktop capture command gives FFmpeg the frame rate and the frame
/// size in digits that read back as the requested ones, and writes the
/// capture file last.
pub proof fn lemma_desktop_capture_reads_back(
    fps: nat,
    x: int,
    y: int,
    width: nat,
    height: nat,
    output: Seq<char>,
)
    ensures
        ({
            let a = desktop_capture_args_of(
                decimal(fps),
                signed_decimal(x),
                signed_decimal(y),
                video_size_of(width, height),
                output,
            );
            &&& a[3] == "-framerate"@
            &&& all_digits(a[4]) && digits_value(a[4]) == fps
            &&& a[9] == "-video_size"@
            &&& reads_as_size(a[10], width, height)
            &&& a.last() == output
        }),
{
    lemma_video_size_reads_back(width, height);
    lemma_decimal_reads_back(fps);
}

/// The FFmpeg arguments that record the monitor at (`x`, `y`) of `width` x
/// `height` directly from the Windows desktop.
pub fn desktop_capture_args(x: i32, y: i32, width: u32, height: u32, fps: u32, output: &str) -> (r:
    Vec<String>)
    ensures
        views(r@) == desktop_capture_args_of(
            decimal(fps as nat),
            signed_decimal(x as int),
            signed_decimal(y as int),
            video_size_of(width as nat, height as nat),
            output@,
        ),
{
    let rate = u64_to_decimal(fps as u64);
    let xs = i64_to_decimal(x as i64);
    let ys = i64_to_decimal(y as i64);
    let size = video_size(width, height);
    let parts = [
        "-y",
        "-f",
        "gdigrab",
        "-framerate",
        rate.as_str(),
        "-offset_x",
        xs.as_str(),
        "-offset_y",
        ys.as_str(),
        "-video_size",
        size.as_str(),
        "-i",
        "desktop",
        "-c:v",
        "libx264",
        "-pix_fmt",
        "yuv420p",
        "-preset",
        "ultrafast",
        "-tune",
        "zerolatency",
        "-crf",
        "25",
        output,
    ];
    let r = to_args(&parts);
    assert(str_views(parts@) =~= desktop_capture_args_of(rate@, xs@, ys@, size@, output@));
    r
}

} // verus!

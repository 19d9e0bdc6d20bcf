//! What is known of the calibration of coordinates: its modes, the
//! comments that its test pictures show, the questions that are put to a
//! model about such a picture, how the coordinates that it reports are read
//! from its answer, and which of them count.

use crate::number::{decimal, i64_literal, parse_i64, push_decimal};
use crate::text::{copy_range, from_chars, lowercase, push_str, str_eq, to_chars, to_lowercase};
use vstd::prelude::*;

verus! {

/// The mode of a calibration.
#[derive(Debug, Clone, Copy, PartialEq, Eq, Structural)]
pub enum CalibrationMode {
    /// Coloured markers at known places.
    Simple,
    /// A picture that looks like a list of comments.
    Complex,
}

impl Default for CalibrationMode {
    fn default() -> (r: Self)
        ensures
            r == CalibrationMode::Simple,
    {
        CalibrationMode::Simple
    }
}

/// A comment as a test picture shows it.
#[derive(Debug, Clone, PartialEq, Eq)]
pub struct MockComment {
    pub username: String,
    pub time: String,
    pub content: String,
    pub likes: u32,
    pub has_reply_button: bool,
}

/// The comments of the Chinese test picture: the name, the time, the text,
/// the likes, and whether there is a button to reply.
pub const COMMENTS_CN: [(&'static str, &'static str, &'static str, u32, bool); 8] = [
    ("张三", "3分钟前", "这个功能太好用了，感谢分享！", 128, true),
    ("李四", "15分钟前", "请问这个在哪里可以下载？", 45, true),
    ("王五", "1小时前", "已收藏，回头慢慢看", 23, true),
    ("赵六", "2小时前", "这个教程讲得很清楚，新手也能看懂，强烈推荐给大家！", 89, true),
    ("钱七", "3小时前", "学到了", 12, false),
    ("孙八", "昨天", "能不能出一个进阶版的教程？", 67, true),
    ("周九", "昨天", "支持！期待更多内容", 34, true),
    ("吴十", "2天前", "这是我见过最详细的教程了，博主用心了", 156, true),
];

/// The comments of the English test picture.
pub const COMMENTS_EN: [(&'static str, &'static str, &'static str, u32, bool); 6] = [
    ("John", "3 min ago", "This feature is amazing, thanks for sharing!", 128, true),
    ("Alice", "15 min ago", "Where can I download this?", 45, true),
    ("Bob", "1 hour ago", "Saved for later", 23, true),
    ("Charlie", "2 hours ago", "This tutorial is very clear, even beginners can understand it!", 89, true),
    ("David", "3 hours ago", "Learned a lot", 12, false),
    ("Eve", "Yesterday", "Can you make an advanced version?", 67, true),
];

/// The comment that a row of a table stands for.
pub open spec fn comment_of(row: (&'static str, &'static str, &'static str, u32, bool)) -> (
    Seq<char>,
    Seq<char>,
    Seq<char>,
    u32,
    bool,
) {
    (row.0@, row.1@, row.2@, row.3, row.4)
}

/// The parts of a comment.
pub open spec fn comment_view(c: MockComment) -> (Seq<char>, Seq<char>, Seq<char>, u32, bool) {
    (c.username@, c.time@, c.content@, c.likes, c.has_reply_button)
}

/// Makes the comments of a table.
fn comments_from(table: &[(&'static str, &'static str, &'static str, u32, bool)]) -> (r: Vec<
    MockComment,
>)
    ensures
        r@.len() == table@.len(),
        forall|i: int| 0 <= i < r@.len() ==> comment_view(#[trigger] r@[i]) == comment_of(table@[i]),
{
    let mut list: Vec<MockComment> = Vec::new();
    let mut i: usize = 0;
    while i < table.len()
        invariant
            i <= table@.len(),
            list@.len() == i,
            forall|j: int| 0 <= j < i ==> comment_view(#[trigger] list@[j]) == comment_of(table@[j]),
        decreases table@.len() - i,
    {
        let row = table[i];
        list.push(
            MockComment {
                username: String::from_str(row.0),
                time: String::from_str(row.1),
                content: String::from_str(row.2),
                likes: row.3,
                has_reply_button: row.4,
            },
        );
        i += 1;
    }
    list
}

impl MockComment {
    /// The comments of the Chinese test picture.
    pub fn random_comments_cn() -> (r: Vec<MockComment>)
        ensures
            r@.len() == COMMENTS_CN@.len(),
            forall|i: int|
                0 <= i < r@.len() ==> comment_view(#[trigger] r@[i]) == comment_of(COMMENTS_CN@[i]),
    {
        let table = COMMENTS_CN;
        comments_from(table.as_slice())
    }

    /// The comments of the English test picture.
    pub fn random_comments_en() -> (r: Vec<MockComment>)
        ensures
            r@.len() == COMMENTS_EN@.len(),
            forall|i: int|
                0 <= i < r@.len() ==> comment_view(#[trigger] r@[i]) == comment_of(COMMENTS_EN@[i]),
    {
        let table = COMMENTS_EN;
        comments_from(table.as_slice())
    }
}

/// What the first two groups of the first match of the regular expression
/// `pattern` in `text` hold; none where the expression is not valid, does
/// not match, or has no two groups that took part in the match.
pub uninterp spec fn first_two_groups(pattern: Seq<char>, text: Seq<char>) -> Option<
    (Seq<char>, Seq<char>),
>;

/// Compiles the expression with `Regex::new`, looks for its first match
/// with `captures`, and hands out the first two groups. The result is a
/// function of the expression and the text alone.
#[verifier::external_body]
fn capture_two(pattern: &str, text: &str) -> (r: Option<(String, String)>)
    ensures
        match r {
            Some(pair) => first_two_groups(pattern@, text@) == Some((pair.0@, pair.1@)),
            None => first_two_groups(pattern@, text@) is None,
        },
{
    let expression = regex::Regex::new(pattern).ok()?;
    let found = expression.captures(text)?;
    Some((found.get(1)?.as_str().to_string(), found.get(2)?.as_str().to_string()))
}

/// The `i32` that `s` denotes, where it denotes an integer in range.
pub open spec fn i32_literal(s: Seq<char>) -> Option<i32> {
    match i64_literal(s) {
        Some(n) => if i32::MIN <= n <= i32::MAX {
            Some(n as i32)
        } else {
            None
        },
        None => None,
    }
}

/// The pair of numbers that a pair of texts denotes, or which of the two
/// is no number.
pub open spec fn pair_of(x: Seq<char>, y: Seq<char>) -> Result<(i32, i32), Seq<char>> {
    match i32_literal(x) {
        None => Err("Invalid X"@),
        Some(a) => match i32_literal(y) {
            None => Err("Invalid Y"@),
            Some(b) => Ok((a, b)),
        },
    }
}

/// The coordinates that an answer reports. Four ways of writing them are
/// tried in turn: `[x, y]`, `element=[x, y]`, `(x, y)`, and `x=... y=...`
/// in whatever case. The first way that is found decides, also where its
/// numbers do not fit.
pub open spec fn reported_coordinates(response: Seq<char>) -> Result<(i32, i32), Seq<char>> {
    match first_two_groups("\\[(\\d+)\\s*,\\s*(\\d+)\\]"@, response) {
        Some((x, y)) => pair_of(x, y),
        None => match first_two_groups("element\\s*=\\s*\\[(\\d+)\\s*,\\s*(\\d+)\\]"@, response) {
            Some((x, y)) => pair_of(x, y),
            None => match first_two_groups("\\((\\d+)\\s*,\\s*(\\d+)\\)"@, response) {
                Some((x, y)) => pair_of(x, y),
                None => match first_two_groups(
                    "x\\s*[=:]\\s*(\\d+).*y\\s*[=:]\\s*(\\d+)"@,
                    lowercase(response),
                ) {
                    Some((x, y)) => pair_of(x, y),
                    None => Err("Could not parse coordinates from: "@ + response),
                },
            },
        },
    }
}

/// A pair of numbers or the text of an error, as mathematical values.
pub open spec fn coordinates_view(r: Result<(i32, i32), String>) -> Result<(i32, i32), Seq<char>> {
    match r {
        Ok(p) => Ok(p),
        Err(t) => Err(t@),
    }
}

/// The `i32` that a text denotes.
fn read_i32(text: &str) -> (r: Option<i32>)
    ensures
        r == i32_literal(text@),
{
    match parse_i64(&to_chars(text)) {
        Some(n) => if -0x8000_0000i64 <= n && n <= 0x7fff_ffffi64 {
            Some(n as i32)
        } else {
            None
        },
        None => None,
    }
}

/// The pair of numbers that a pair of texts denotes.
pub fn read_pair(x: &str, y: &str) -> (r: Result<(i32, i32), String>)
    ensures
        coordinates_view(r) == pair_of(x@, y@),
{
    match read_i32(x) {
        None => Err(String::from_str("Invalid X")),
        Some(a) => match read_i32(y) {
            None => Err(String::from_str("Invalid Y")),
            Some(b) => Ok((a, b)),
        },
    }
}

/// Reads the coordinates that an answer reports.
pub fn parse_coordinates(response: &str) -> (r: Result<(i32, i32), String>)
    ensures
        coordinates_view(r) == reported_coordinates(response@),
{
    match capture_two("\\[(\\d+)\\s*,\\s*(\\d+)\\]", response) {
        Some(pair) => {
            return read_pair(pair.0.as_str(), pair.1.as_str());
        },
        None => {},
    }
    match capture_two("element\\s*=\\s*\\[(\\d+)\\s*,\\s*(\\d+)\\]", response) {
        Some(pair) => {
            return read_pair(pair.0.as_str(), pair.1.as_str());
        },
        None => {},
    }
    match capture_two("\\((\\d+)\\s*,\\s*(\\d+)\\)", response) {
        Some(pair) => {
            return read_pair(pair.0.as_str(), pair.1.as_str());
        },
        None => {},
    }
    match capture_two(
        "x\\s*[=:]\\s*(\\d+).*y\\s*[=:]\\s*(\\d+)",
        to_lowercase(response).as_str(),
    ) {
        Some(pair) => {
            return read_pair(pair.0.as_str(), pair.1.as_str());
        },
        None => {},
    }
    let mut message = to_chars("Could not parse coordinates from: ");
    push_str(&mut message, response);
    Err(from_chars(&message))
}

/// What a model is asked about a picture with one marker: where the
/// centre of the marker is, on a screen of `width` by `height` pixels. The
/// picture is the one of the marker with the number `point`. The question
/// is in Chinese for the language `cn` and in English for any other.
pub open spec fn marker_question(lang: Seq<char>, point: nat, width: u32, height: u32) -> Seq<
    char,
> {
    if lang == "cn"@ {
        "这是一张坐标校准图片。图片中有一个红色方块，方块中间有一个黄色十字和黑色中心点。\n这是第 "@
            + decimal(point) + " 个校准点（图片左上角有 "@ + decimal(point)
            + " 个绿色方块表示）。\n屏幕尺寸为 "@ + decimal(width as nat) + "x"@ + decimal(
            height as nat,
        )
            + " 像素（宽x高）。\n\n请仔细观察红色方块中心（黑色点）的位置，输出其精确的像素坐标。\n坐标原点在左上角，X向右增加，Y向下增加。\n\n只需要输出坐标，格式为: [x, y]\n例如: [540, 960]"@
    } else {
        "This is a coordinate calibration image. There is a red square with a yellow crosshair and a black center dot.\nThis is calibration point "@
            + decimal(point) + " (indicated by "@ + decimal(point)
            + " green squares at top-left).\nScreen size is "@ + decimal(width as nat) + "x"@
            + decimal(height as nat)
            + " pixels (width x height).\n\nPlease observe the center of the red marker (black dot) carefully and report its exact pixel coordinates.\nOrigin is at top-left, X increases rightward, Y increases downward.\n\nOnly output the coordinates in format: [x, y]\nExample: [540, 960]"@
    }
}

/// Writes the question about a picture with one marker.
pub fn marker_prompt(lang: &str, point: usize, width: u32, height: u32) -> (r: String)
    ensures
        r@ == marker_question(lang@, point as nat, width, height),
{
    let mut out: Vec<char> = Vec::new();
    if str_eq(lang, "cn") {
        push_str(
            &mut out,
            "这是一张坐标校准图片。图片中有一个红色方块，方块中间有一个黄色十字和黑色中心点。\n这是第 ",
        );
        push_decimal(&mut out, point as u128);
        push_str(&mut out, " 个校准点（图片左上角有 ");
        push_decimal(&mut out, point as u128);
        push_str(&mut out, " 个绿色方块表示）。\n屏幕尺寸为 ");
        push_decimal(&mut out, width as u128);
        push_str(&mut out, "x");
        push_decimal(&mut out, height as u128);
        push_str(
            &mut out,
            " 像素（宽x高）。\n\n请仔细观察红色方块中心（黑色点）的位置，输出其精确的像素坐标。\n坐标原点在左上角，X向右增加，Y向下增加。\n\n只需要输出坐标，格式为: [x, y]\n例如: [540, 960]",
        );
    } else {
        push_str(
            &mut out,
            "This is a coordinate calibration image. There is a red square with a yellow crosshair and a black center dot.\nThis is calibration point ",
        );
        push_decimal(&mut out, point as u128);
        push_str(&mut out, " (indicated by ");
        push_decimal(&mut out, point as u128);
        push_str(&mut out, " green squares at top-left).\nScreen size is ");
        push_decimal(&mut out, width as u128);
        push_str(&mut out, "x");
        push_decimal(&mut out, height as u128);
        push_str(
            &mut out,
            " pixels (width x height).\n\nPlease observe the center of the red marker (black dot) carefully and report its exact pixel coordinates.\nOrigin is at top-left, X increases rightward, Y increases downward.\n\nOnly output the coordinates in format: [x, y]\nExample: [540, 960]",
        );
    }
    from_chars(&out)
}

/// A part of a comment that a picture of comments shows and that a model
/// can be asked to find.
#[derive(Debug, Clone, Copy, PartialEq, Eq, Structural)]
pub enum TargetKind {
    /// The picture of the author.
    Avatar,
    /// The name of the author.
    Username,
    /// The text of the comment.
    Comment,
    /// The button that likes the comment.
    LikeButton,
    /// The button that answers the comment.
    ReplyButton,
}

/// What a part of a comment is called: in Chinese for the language `cn`,
/// in English for any other.
pub open spec fn kind_label(kind: TargetKind, lang: Seq<char>) -> Seq<char> {
    if lang == "cn"@ {
        match kind {
            TargetKind::Avatar => "头像"@,
            TargetKind::Username => "用户名"@,
            TargetKind::Comment => "评论内容"@,
            TargetKind::LikeButton => "点赞按钮"@,
            TargetKind::ReplyButton => "回复按钮"@,
        }
    } else {
        match kind {
            TargetKind::Avatar => "Avatar"@,
            TargetKind::Username => "Username"@,
            TargetKind::Comment => "Comment"@,
            TargetKind::LikeButton => "Like button"@,
            TargetKind::ReplyButton => "Reply button"@,
        }
    }
}

impl TargetKind {
    /// What this part of a comment is called in the language `lang`.
    pub fn label(self, lang: &str) -> (r: &'static str)
        ensures
            r@ == kind_label(self, lang@),
    {
        if str_eq(lang, "cn") {
            match self {
                TargetKind::Avatar => "头像",
                TargetKind::Username => "用户名",
                TargetKind::Comment => "评论内容",
                TargetKind::LikeButton => "点赞按钮",
                TargetKind::ReplyButton => "回复按钮",
            }
        } else {
            match self {
                TargetKind::Avatar => "Avatar",
                TargetKind::Username => "Username",
                TargetKind::Comment => "Comment",
                TargetKind::LikeButton => "Like button",
                TargetKind::ReplyButton => "Reply button",
            }
        }
    }
}

/// How the text of a comment is named in a question: whole where it has
/// at most ten characters, else its first ten characters and three dots.
pub open spec fn content_summary(content: Seq<char>) -> Seq<char> {
    if content.len() > 10 {
        content.take(10) + "..."@
    } else {
        content
    }
}

/// Names the text of a comment for a question.
pub fn summarize_content(content: &str) -> (r: String)
    ensures
        r@ == content_summary(content@),
{
    let chars = to_chars(content);
    if chars.len() > 10 {
        let mut out = copy_range(&chars, 0, 10);
        assert(chars@.take(10) == chars@.subrange(0, 10));
        push_str(&mut out, "...");
        from_chars(&out)
    } else {
        from_chars(&chars)
    }
}

/// What a model is asked about a picture of comments: where the red dot
/// is that marks the part called `label` of the comment named by `what`, on
/// a screen of `width` by `height` pixels. The question is in Chinese for
/// the language `cn` and in English for any other.
pub open spec fn target_question(
    lang: Seq<char>,
    width: u32,
    height: u32,
    label: Seq<char>,
    what: Seq<char>,
) -> Seq<char> {
    if lang == "cn"@ {
        "这是一个评论区界面的截图。屏幕尺寸为 "@ + decimal(width as nat) + "x"@ + decimal(
            height as nat,
        ) + " 像素（宽x高）。\n\n界面中有一个红色小圆点标记了目标位置。\n目标是: "@ + label
            + " - \""@ + what
            + "\"\n\n请找到这个红色标记点的精确像素坐标。\n坐标原点在左上角，X向右增加，Y向下增加。\n\n只需要输出坐标，格式为: [x, y]\n例如: [540, 960]"@
    } else {
        "This is a screenshot of a comment section UI. Screen size is "@ + decimal(width as nat)
            + "x"@ + decimal(height as nat)
            + " pixels (width x height).\n\nThere is a small red dot marking the target position.\nTarget: "@
            + label + " - \""@ + what
            + "\"\n\nPlease find the exact pixel coordinates of this red marker.\nOrigin is at top-left, X increases rightward, Y increases downward.\n\nOnly output the coordinates in format: [x, y]\nExample: [540, 960]"@
    }
}

/// Writes the question about a picture of comments.
pub fn target_prompt(lang: &str, width: u32, height: u32, label: &str, what: &str) -> (r: String)
    ensures
        r@ == target_question(lang@, width, height, label@, what@),
{
    let mut out: Vec<char> = Vec::new();
    if str_eq(lang, "cn") {
        push_str(&mut out, "这是一个评论区界面的截图。屏幕尺寸为 ");
        push_decimal(&mut out, width as u128);
        push_str(&mut out, "x");
        push_decimal(&mut out, height as u128);
        push_str(
            &mut out,
            " 像素（宽x高）。\n\n界面中有一个红色小圆点标记了目标位置。\n目标是: ",
        );
        push_str(&mut out, label);
        push_str(&mut out, " - \"");
        push_str(&mut out, what);
        push_str(
            &mut out,
            "\"\n\n请找到这个红色标记点的精确像素坐标。\n坐标原点在左上角，X向右增加，Y向下增加。\n\n只需要输出坐标，格式为: [x, y]\n例如: [540, 960]",
        );
    } else {
        push_str(&mut out, "This is a screenshot of a comment section UI. Screen size is ");
        push_decimal(&mut out, width as u128);
        push_str(&mut out, "x");
        push_decimal(&mut out, height as u128);
        push_str(
            &mut out,
            " pixels (width x height).\n\nThere is a small red dot marking the target position.\nTarget: ",
        );
        push_str(&mut out, label);
        push_str(&mut out, " - \"");
        push_str(&mut out, what);
        push_str(
            &mut out,
            "\"\n\nPlease find the exact pixel coordinates of this red marker.\nOrigin is at top-left, X increases rightward, Y increases downward.\n\nOnly output the coordinates in format: [x, y]\nExample: [540, 960]",
        );
    }
    from_chars(&out)
}

/// Whether a reported coordinate is near enough to the expected one to
/// count: the expected one is more than half and less than twice the
/// reported one. A report of zero gives no ratio and counts.
pub open spec fn plausible(expected: int, reported: int) -> bool {
    reported == 0 || (reported > 0 && reported < 2 * expected && expected < 2 * reported) || (
    reported < 0 && 2 * expected < reported && 2 * reported < expected)
}

/// Tells whether a reported coordinate counts.
pub fn is_plausible(expected: i32, reported: i32) -> (r: bool)
    ensures
        r == plausible(expected as int, reported as int),
{
    let e: i64 = expected as i64;
    let p: i64 = reported as i64;
    p == 0 || (p > 0 && p < 2 * e && e < 2 * p) || (p < 0 && 2 * e < p && 2 * p < e)
}

} // verus!

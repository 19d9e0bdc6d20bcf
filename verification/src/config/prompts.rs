//! The system prompts of the executor's model.
//!
//! A prompt starts with today's date and the size of the screen, followed by
//! the rules of the action language.

use crate::number::{decimal, push_decimal};
use crate::text::{from_chars, push_str, str_eq, to_chars};
use vstd::prelude::*;

verus! {

/// The rules of the action language, in Chinese.
pub const SYSTEM_PROMPT_ZH: &'static str = r#"你是一个智能体分析专家，可以根据操作历史和当前状态图执行一系列操作来完成任务。
你必须严格按照要求输出以下格式：
<think>{think}</think>
<answer>{action}</answer>

其中：
- {think} 是对你为什么选择这个操作的简短推理说明。
- {action} 是本次执行的具体操作指令，必须严格遵循下方定义的指令格式。

【坐标系统说明】
所有涉及坐标的操作（Tap、Swipe、Long Press、Double Tap等）使用的是**绝对像素坐标**：
- 屏幕分辨率已在上方提供，格式为"宽x高"
- 坐标原点：屏幕左上角为 (0, 0)
- 坐标范围：X 必须在 [0, 屏幕宽度] 范围内，Y 必须在 [0, 屏幕高度] 范围内
- 坐标单位：像素（pixel）
- **重要**：如果提供的坐标超出屏幕范围，操作将失败并返回错误信息
- 示例：在 1080x1920 的屏幕上，屏幕中心点坐标为 (540, 960)

操作指令及其作用如下：
- do(action="Launch", app="xxx")  
    Launch是启动目标app的操作，这比通过主屏幕导航更快。此操作完成后，您将自动收到结果状态的截图。
- do(action="Tap", element=[x,y])  
    Tap是点击操作，点击屏幕上的特定点。可用此操作点击按钮、选择项目、从主屏幕打开应用程序，或与任何可点击的用户界面元素进行交互。坐标为绝对像素坐标，必须在屏幕范围内。此操作完成后，您将自动收到结果状态的截图。
- do(action="Tap", element=[x,y], message="重要操作")  
    基本功能同Tap，点击涉及财产、支付、隐私等敏感按钮时触发。
- do(action="Type", text="xxx")  
    Type是输入操作，在当前聚焦的输入框中输入文本。使用此操作前，请确保输入框已被聚焦（先点击它）。输入的文本将像使用键盘输入一样输入。重要提示：手机可能正在使用 ADB 键盘，该键盘不会像普通键盘那样占用屏幕空间。要确认键盘已激活，请查看屏幕底部是否显示 'ADB Keyboard {ON}' 类似的文本，或者检查输入框是否处于激活/高亮状态。不要仅仅依赖视觉上的键盘显示。自动清除文本：当你使用输入操作时，输入框中现有的任何文本（包括占位符文本和实际输入）都会在输入新文本前自动清除。你无需在输入前手动清除文本——直接使用输入操作输入所需文本即可。操作完成后，你将自动收到结果状态的截图。
- do(action="Type_Name", text="xxx")  
    Type_Name是输入人名的操作，基本功能同Type。
- do(action="Interact")  
    Interact是当有多个满足条件的选项时而触发的交互操作，询问用户如何选择。
- do(action="Swipe", start=[x1,y1], end=[x2,y2])  
    Swipe是滑动操作，通过从起始坐标拖动到结束坐标来执行滑动手势。可用于滚动内容、在屏幕之间导航、下拉通知栏以及项目栏或进行基于手势的导航。起始和结束坐标都为绝对像素坐标，必须在屏幕范围内。滑动持续时间会自动调整以实现自然的移动。
    **滑动注意事项**：
    - 很多App底部有固定的导航栏、输入框或回复栏（如小红书、微信、微博等），这些区域不会随页面滚动
    - 如果滑动起点落在这些固定区域内，滑动将不会生效
    - 向上滑动查看更多内容时，建议起点Y坐标在屏幕高度的 20%-75% 范围内，避开顶部状态栏和底部固定栏
    - 向下滑动时同理，终点Y坐标也应避开固定区域
    - 如果连续滑动多次页面没有变化，请调整滑动起点位置，将起点移到页面中间的可滚动内容区域
    此操作完成后，您将自动收到结果状态的截图。
- do(action="Note", message="True")  
    记录当前页面内容以便后续总结。
- do(action="Call_API", instruction="xxx")  
    总结或评论当前页面或已记录的内容。
- do(action="Long Press", element=[x,y])  
    Long Press是长按操作，在屏幕上的特定点长按指定时间。可用于触发上下文菜单、选择文本或激活长按交互。坐标为绝对像素坐标，必须在屏幕范围内。此操作完成后，您将自动收到结果状态的屏幕截图。
- do(action="Double Tap", element=[x,y])  
    Double Tap在屏幕上的特定点快速连续点按两次。使用此操作可以激活双击交互，如缩放、选择文本或打开项目。坐标为绝对像素坐标，必须在屏幕范围内。此操作完成后，您将自动收到结果状态的截图。
- do(action="Take_over", message="xxx")  
    Take_over是接管操作，表示在登录和验证阶段需要用户协助。
- do(action="Back")  
    导航返回到上一个屏幕或关闭当前对话框。相当于按下 Android 的返回按钮。使用此操作可以从更深的屏幕返回、关闭弹出窗口或退出当前上下文。此操作完成后，您将自动收到结果状态的截图。
- do(action="Home") 
    Home是回到系统桌面的操作，相当于按下 Android 主屏幕按钮。使用此操作可退出当前应用并返回启动器，或从已知状态启动新任务。此操作完成后，您将自动收到结果状态的截图。
- do(action="Wait", duration="x seconds")  
    等待页面加载，x为需要等待多少秒。
- finish(message="xxx")  
    finish是结束任务的操作，表示准确完整完成任务，message是终止信息。 

必须遵循的规则：
1. 在执行任何操作前，先检查当前app是否是目标app，如果不是，先执行 Launch。
2. 如果进入到了无关页面，先执行 Back。如果执行Back后页面没有变化，请点击页面左上角的返回键进行返回，或者右上角的X号关闭。
3. 如果页面未加载出内容，最多连续 Wait 三次，否则执行 Back重新进入。
4. 如果页面显示网络问题，需要重新加载，请点击重新加载。
5. 如果当前页面找不到目标联系人、商品、店铺等信息，可以尝试 Swipe 滑动查找。
6. 遇到价格区间、时间区间等筛选条件，如果没有完全符合的，可以放宽要求。
7. 在做小红书总结类任务时一定要筛选图文笔记。
8. 购物车全选后再点击全选可以把状态设为全不选，在做购物车任务时，如果购物车里已经有商品被选中时，你需要点击全选后再点击取消全选，再去找需要购买或者删除的商品。
9. 在做外卖任务时，如果相应店铺购物车里已经有其他商品你需要先把购物车清空再去购买用户指定的外卖。
10. 在做点外卖任务时，如果用户需要点多个外卖，请尽量在同一店铺进行购买，如果无法找到可以下单，并说明某个商品未找到。
11. 请严格遵循用户意图执行任务，用户的特殊要求可以执行多次搜索，滑动查找。比如（i）用户要求点一杯咖啡，要咸的，你可以直接搜索咸咖啡，或者搜索咖啡后滑动查找咸的咖啡，比如海盐咖啡。（ii）用户要找到XX群，发一条消息，你可以先搜索XX群，找不到结果后，将"群"字去掉，搜索XX重试。（iii）用户要找到宠物友好的餐厅，你可以搜索餐厅，找到筛选，找到设施，选择可带宠物，或者直接搜索可带宠物，必要时可以使用AI搜索。
12. 在选择日期时，如果原滑动方向与预期日期越来越远，请向反方向滑动查找。
13. 执行任务过程中如果有多个可选择的项目栏，请逐个查找每个项目栏，直到完成任务，一定不要在同一项目栏多次查找，从而陷入死循环。
14. 在执行下一步操作前请一定要检查上一步的操作是否生效，如果点击没生效，可能因为app反应较慢，请先稍微等待一下，如果还是不生效请调整一下点击位置重试，如果仍然不生效请跳过这一步继续任务，并在finish message说明点击不生效。
15. 在执行任务中如果遇到滑动不生效的情况：
    - 首先检查滑动起点是否落在了固定区域（如底部导航栏、回复框、输入栏等），这些区域不会响应滑动
    - 将滑动起点移到页面中间的内容区域（建议Y坐标在屏幕高度的 30%-70% 范围内）
    - 增大滑动距离重试
    - 如果调整后仍不生效，可能是已经滑到顶部或底部了，请尝试向反方向滑动
    - 如果连续3次滑动都没有效果，请跳过这一步继续任务，并在finish message说明滑动不生效或没找到要求的项目
16. 在做游戏任务时如果在战斗页面如果有自动战斗一定要开启自动战斗，如果多轮历史状态相似要检查自动战斗是否开启。
17. 如果没有合适的搜索结果，可能是因为搜索页面不对，请返回到搜索页面的上一级尝试重新搜索，如果尝试三次返回上一级搜索后仍然没有符合要求的结果，执行 finish(message="原因")。
18. 在结束任务前请一定要仔细检查任务是否完整准确的完成，如果出现错选、漏选、多选的情况，请返回之前的步骤进行纠正。
"#;

/// The rules of the action language, in English.
pub const SYSTEM_PROMPT_EN: &'static str = r#"You are an intelligent agent analyst who can execute a series of operations based on operation history and current state to complete tasks.
You must strictly output in the following format:
<think>{think}</think>
<answer>{action}</answer>

Where:
- {think} is a brief reasoning explanation for why you chose this operation.
- {action} is the specific operation instruction to execute, which must strictly follow the instruction format defined below.

【Coordinate System】
All coordinate-based operations (Tap, Swipe, Long Press, Double Tap, etc.) use **absolute pixel coordinates**:
- Screen resolution is provided above in "width x height" format
- Origin: Top-left corner of the screen is (0, 0)
- Coordinate range: X must be within [0, screen width], Y must be within [0, screen height]
- Unit: pixels
- **Important**: If provided coordinates are outside the screen range, the operation will fail and return an error message
- Example: On a 1080x1920 screen, the center point is (540, 960)

Operation instructions and their functions are as follows:
- do(action="Launch", app="xxx")  
    Launch starts the target app, which is faster than navigating through the home screen. After this operation, you will automatically receive a screenshot of the result state.
- do(action="Tap", element=[x,y])  
    Tap is a click operation that clicks a specific point on the screen. Use this operation to click buttons, select items, open applications from the home screen, or interact with any clickable UI element. Coordinates are absolute pixel coordinates and must be within screen range. After this operation, you will automatically receive a screenshot of the result state.
- do(action="Tap", element=[x,y], message="Important operation")  
    Same basic function as Tap, triggered when clicking sensitive buttons involving property, payment, privacy, etc.
- do(action="Type", text="xxx")  
    Type is an input operation that enters text in the currently focused input field. Before using this operation, make sure the input field is focused (click on it first). The entered text will be input as if using a keyboard. Important: The phone may be using ADB Keyboard, which does not occupy screen space like a regular keyboard. To confirm the keyboard is activated, check if 'ADB Keyboard {ON}' or similar text is displayed at the bottom of the screen, or check if the input field is active/highlighted. Do not rely solely on visual keyboard display. Auto-clear text: When you use the input operation, any existing text in the input field (including placeholder text and actual input) will be automatically cleared before entering new text. You don't need to manually clear text before input—just use the input operation to enter the desired text directly. After the operation, you will automatically receive a screenshot of the result state.
- do(action="Type_Name", text="xxx")  
    Type_Name is for entering names, with the same basic function as Type.
- do(action="Interact")  
    Interact is an interactive operation triggered when there are multiple options that meet the criteria, asking the user how to choose.
- do(action="Swipe", start=[x1,y1], end=[x2,y2])  
    Swipe executes a swipe gesture by dragging from start coordinates to end coordinates. Can be used to scroll content, navigate between screens, pull down notification bar and item bars, or perform gesture-based navigation. Both start and end coordinates are absolute pixel coordinates and must be within screen range. Swipe duration is automatically adjusted for natural movement.
    **Swipe Tips**:
    - Many apps have fixed navigation bars, input boxes, or reply bars at the bottom (e.g., Xiaohongshu, WeChat, Weibo), which don't scroll with the page
    - If the swipe starting point falls within these fixed areas, the swipe will not work
    - When swiping up to view more content, keep the starting Y coordinate within 20%-75% of screen height to avoid top status bar and bottom fixed bars
    - Same applies when swiping down - end Y coordinate should also avoid fixed areas
    - If the page doesn't change after multiple consecutive swipes, adjust the swipe starting point to the scrollable content area in the middle of the page
    After this operation, you will automatically receive a screenshot of the result state.
- do(action="Note", message="True")  
    Record current page content for later summarization.
- do(action="Call_API", instruction="xxx")  
    Summarize or comment on current page or recorded content.
- do(action="Long Press", element=[x,y])  
    Long Press performs a long press at a specific point on the screen for a specified time. Can be used to trigger context menus, select text, or activate long-press interactions. Coordinates are absolute pixel coordinates and must be within screen range. After this operation, you will automatically receive a screenshot of the result state.
- do(action="Double Tap", element=[x,y])  
    Double Tap quickly taps twice consecutively at a specific point on the screen. Use this operation to activate double-tap interactions such as zooming, selecting text, or opening items. Coordinates are absolute pixel coordinates and must be within screen range. After this operation, you will automatically receive a screenshot of the result state.
- do(action="Take_over", message="xxx")  
    Take_over is a takeover operation indicating user assistance is needed during login and verification stages.
- do(action="Back")  
    Navigate back to the previous screen or close the current dialog. Equivalent to pressing Android's back button. Use this operation to return from deeper screens, close pop-ups, or exit the current context. After this operation, you will automatically receive a screenshot of the result state.
- do(action="Home") 
    Home returns to the system desktop, equivalent to pressing the Android home button. Use this operation to exit the current app and return to the launcher, or start a new task from a known state. After this operation, you will automatically receive a screenshot of the result state.
- do(action="Wait", duration="x seconds")  
    Wait for page to load, x is the number of seconds to wait.
- finish(message="xxx")  
    finish ends the task, indicating accurate and complete task completion, message is the termination information.

Rules that must be followed:
1. Before executing any operation, first check if the current app is the target app. If not, execute Launch first.
2. If you enter an unrelated page, execute Back first. If the page doesn't change after Back, click the return button in the upper left corner of the page, or close with the X in the upper right corner.
3. If the page hasn't loaded content, Wait consecutively at most three times, otherwise execute Back to re-enter.
4. If the page shows network problems and needs to reload, click reload.
5. If the current page can't find the target contact, product, store, etc., try Swipe to scroll and find.
6. When encountering filter conditions like price range, time range, etc., if there's no exact match, relax the requirements.
7. When doing Xiaohongshu summary tasks, be sure to filter for image-text notes.
8. Clicking select all again after selecting all in shopping cart can set the state to none selected. When doing shopping cart tasks, if there are already selected items in the cart, you need to click select all then click deselect all, then find the items to purchase or delete.
9. When doing food delivery tasks, if there are other items in the store's cart, you need to clear the cart first before purchasing user-specified items.
10. When ordering multiple food deliveries, try to purchase from the same store if possible. If not found, you can place the order and note that a certain item was not found.
11. Please strictly follow user intent to execute tasks. For special user requirements, you can perform multiple searches and scroll to find. For example: (i) If user wants a cup of coffee that's salty, you can search for salty coffee directly, or search for coffee then scroll to find salty coffee like sea salt coffee. (ii) If user wants to find XX group and send a message, you can first search for XX group, if no results, remove the word "group" and search for XX to retry. (iii) If user wants to find a pet-friendly restaurant, you can search for restaurant, find filters, find facilities, select pet-friendly, or search directly for pet-friendly, using AI search if necessary.
12. When selecting dates, if the original sliding direction gets further from the expected date, slide in the opposite direction.
13. During task execution, if there are multiple selectable item bars, search each item bar one by one until the task is completed. Never search the same item bar multiple times, getting stuck in an infinite loop.
14. Before executing the next operation, be sure to check if the previous operation took effect. If click didn't work, possibly due to slow app response, wait a moment first. If still not working, adjust the click position and retry. If still not working, skip this step and continue the task, noting in finish message that click didn't work.
15. During task execution, if swipe doesn't work:
    - First check if the swipe starting point is in a fixed area (such as bottom navigation bar, reply box, input bar, etc.), these areas won't respond to swipes
    - Move the swipe starting point to the content area in the middle of the page (recommended Y coordinate between 1/4 and 3/4 of screen height)
    - Increase swipe distance and retry
    - If still not working after adjustment, you may have reached the top or bottom, try swiping in the opposite direction
    - If 3 consecutive swipes have no effect, skip this step and continue the task, noting in finish message that swipe didn't work or the required item was not found
16. When doing game tasks, if on a battle page and there's auto-battle, be sure to enable it. If multiple rounds show similar history states, check if auto-battle is enabled.
17. If there are no suitable search results, it might be because the search page is wrong. Return to the previous level of the search page and try searching again. If after three attempts of returning and searching there are still no matching results, execute finish(message="reason").
18. Before ending the task, be sure to carefully check if the task is complete and accurate. If there are wrong selections, missed selections, or extra selections, return to previous steps to correct them.
"#;

/// A day of the calendar.
#[derive(Debug, Clone, Copy, PartialEq, Eq)]
pub struct LocalDate {
    year: i32,
    month: u32,
    day: u32,
    weekday: u32,
}

/// The English name of the month with the number `month`.
pub open spec fn month_name(month: u32) -> Seq<char> {
    if month == 1 {
        "January"@
    } else if month == 2 {
        "February"@
    } else if month == 3 {
        "March"@
    } else if month == 4 {
        "April"@
    } else if month == 5 {
        "May"@
    } else if month == 6 {
        "June"@
    } else if month == 7 {
        "July"@
    } else if month == 8 {
        "August"@
    } else if month == 9 {
        "September"@
    } else if month == 10 {
        "October"@
    } else if month == 11 {
        "November"@
    } else {
        "December"@
    }
}

/// The Chinese name of the day of the week, counted from Monday as 0.
pub open spec fn weekday_name(weekday: u32) -> Seq<char> {
    if weekday == 0 {
        "星期一"@
    } else if weekday == 1 {
        "星期二"@
    } else if weekday == 2 {
        "星期三"@
    } else if weekday == 3 {
        "星期四"@
    } else if weekday == 4 {
        "星期五"@
    } else if weekday == 5 {
        "星期六"@
    } else {
        "星期日"@
    }
}

/// `n` in decimal with two digits; `n` is below 100.
pub open spec fn two_digits(n: u32) -> Seq<char> {
    decimal((n / 10) as nat) + decimal((n % 10) as nat)
}

/// The year with four digits, and with its sign where it is negative or
/// has more than four digits.
pub open spec fn year_text(year: i32) -> Seq<char> {
    if 0 <= year <= 9999 {
        decimal((year / 1000) as nat) + decimal(((year / 100) % 10) as nat) + decimal(
            ((year / 10) % 10) as nat,
        ) + decimal((year % 10) as nat)
    } else if year > 9999 {
        "+"@ + decimal(year as nat)
    } else if year > -1000 {
        "-"@ + decimal(((-year) / 1000) as nat) + decimal((((-year) / 100) % 10) as nat) + decimal(
            (((-year) / 10) % 10) as nat,
        ) + decimal(((-year) % 10) as nat)
    } else {
        "-"@ + decimal((-year) as nat)
    }
}

impl LocalDate {
    /// A date has a month from 1 to 12, a day from 1 to 31 and a day of the
    /// week from 0 to 6.
    #[verifier::type_invariant]
    pub closed spec fn valid(self) -> bool {
        1 <= self.month <= 12 && 1 <= self.day <= 31 && self.weekday <= 6
    }

    /// The year.
    pub closed spec fn year_of(self) -> i32 {
        self.year
    }

    /// The month, from 1 to 12.
    pub closed spec fn month_of(self) -> u32 {
        self.month
    }

    /// The day of the month, from 1 to 31.
    pub closed spec fn day_of(self) -> u32 {
        self.day
    }

    /// The day of the week, from 0 for Monday to 6 for Sunday.
    pub closed spec fn weekday_of(self) -> u32 {
        self.weekday
    }

    /// The date with these parts, where they are those of a date: `weekday`
    /// counts the days from Monday.
    pub fn new(year: i32, month: u32, day: u32, weekday: u32) -> (r: Option<LocalDate>)
        ensures
            (r is Some) == (1 <= month <= 12 && 1 <= day <= 31 && weekday <= 6),
            r matches Some(d) ==> d.year_of() == year && d.month_of() == month && d.day_of() == day
                && d.weekday_of() == weekday,
    {
        if 1 <= month && month <= 12 && 1 <= day && day <= 31 && weekday <= 6 {
            Some(LocalDate { year, month, day, weekday })
        } else {
            None
        }
    }

    /// The date as it is written in Chinese: year, month and day with their
    /// words, and the day of the week.
    pub open spec fn chinese(self) -> Seq<char> {
        year_text(self.year_of()) + "年"@ + two_digits(self.month_of()) + "月"@ + two_digits(
            self.day_of(),
        ) + "日 "@ + weekday_name(self.weekday_of())
    }

    /// The date as it is written in English: the month's name, the day and
    /// the year.
    pub open spec fn english(self) -> Seq<char> {
        month_name(self.month_of()) + " "@ + two_digits(self.day_of()) + ", "@ + year_text(
            self.year_of(),
        )
    }
}

/// Appends `n` with two digits.
fn push_two_digits(dst: &mut Vec<char>, n: u32)
    ensures
        final(dst)@ == old(dst)@ + two_digits(n),
{
    push_decimal(dst, (n / 10) as u128);
    push_decimal(dst, (n % 10) as u128);
    assert(dst@ =~= old(dst)@ + two_digits(n));
}

/// Appends four digits of `n`, the thousands reduced to one digit only
/// where `n` is below 10000.
fn push_four_digits(dst: &mut Vec<char>, n: u32)
    requires
        n <= 9999,
    ensures
        final(dst)@ == old(dst)@ + decimal((n / 1000) as nat) + decimal(((n / 100) % 10) as nat)
            + decimal(((n / 10) % 10) as nat) + decimal((n % 10) as nat),
{
    push_decimal(dst, (n / 1000) as u128);
    push_decimal(dst, ((n / 100) % 10) as u128);
    push_decimal(dst, ((n / 10) % 10) as u128);
    push_decimal(dst, (n % 10) as u128);
}

/// Appends the year.
fn push_year(dst: &mut Vec<char>, year: i32)
    ensures
        final(dst)@ == old(dst)@ + year_text(year),
{
    if 0 <= year && year <= 9999 {
        push_four_digits(dst, year as u32);
        assert(dst@ =~= old(dst)@ + year_text(year));
    } else if year > 9999 {
        push_str(dst, "+");
        push_decimal(dst, year as u128);
        assert(dst@ =~= old(dst)@ + year_text(year));
    } else if year > -1000 {
        push_str(dst, "-");
        push_four_digits(dst, (-year) as u32);
        assert(dst@ =~= old(dst)@ + year_text(year));
    } else {
        push_str(dst, "-");
        let m: u64 = (-(year as i64)) as u64;
        push_decimal(dst, m as u128);
        assert(dst@ =~= old(dst)@ + year_text(year));
    }
}

/// Appends the date as it is written in Chinese.
fn push_chinese_date(dst: &mut Vec<char>, today: &LocalDate)
    ensures
        final(dst)@ == old(dst)@ + today.chinese(),
{
    push_year(dst, today.year);
    push_str(dst, "年");
    push_two_digits(dst, today.month);
    push_str(dst, "月");
    push_two_digits(dst, today.day);
    push_str(dst, "日 ");
    let w = today.weekday;
    if w == 0 {
        push_str(dst, "星期一");
    } else if w == 1 {
        push_str(dst, "星期二");
    } else if w == 2 {
        push_str(dst, "星期三");
    } else if w == 3 {
        push_str(dst, "星期四");
    } else if w == 4 {
        push_str(dst, "星期五");
    } else if w == 5 {
        push_str(dst, "星期六");
    } else {
        push_str(dst, "星期日");
    }
    assert(dst@ =~= old(dst)@ + today.chinese());
}

/// Appends the date as it is written in English.
fn push_english_date(dst: &mut Vec<char>, today: &LocalDate)
    ensures
        final(dst)@ == old(dst)@ + today.english(),
{
    let m = today.month;
    if m == 1 {
        push_str(dst, "January");
    } else if m == 2 {
        push_str(dst, "February");
    } else if m == 3 {
        push_str(dst, "March");
    } else if m == 4 {
        push_str(dst, "April");
    } else if m == 5 {
        push_str(dst, "May");
    } else if m == 6 {
        push_str(dst, "June");
    } else if m == 7 {
        push_str(dst, "July");
    } else if m == 8 {
        push_str(dst, "August");
    } else if m == 9 {
        push_str(dst, "September");
    } else if m == 10 {
        push_str(dst, "October");
    } else if m == 11 {
        push_str(dst, "November");
    } else {
        push_str(dst, "December");
    }
    push_str(dst, " ");
    push_two_digits(dst, today.day);
    push_str(dst, ", ");
    push_year(dst, today.year);
    assert(dst@ =~= old(dst)@ + today.english());
}

/// The Chinese prompt for a screen of `width` by `height` pixels on the day
/// `today`.
pub open spec fn prompt_zh(width: u32, height: u32, today: LocalDate) -> Seq<char> {
    "今天的日期是: "@ + today.chinese() + "\n当前屏幕分辨率: "@ + decimal(width as nat) + "x"@ + decimal(
        height as nat,
    ) + " (宽x高)\n"@ + SYSTEM_PROMPT_ZH@
}

/// The English prompt for a screen of `width` by `height` pixels on the day
/// `today`.
pub open spec fn prompt_en(width: u32, height: u32, today: LocalDate) -> Seq<char> {
    "Today's date is: "@ + today.english() + "\nCurrent screen resolution: "@ + decimal(
        width as nat,
    ) + "x"@ + decimal(height as nat) + " (width x height)\n"@ + SYSTEM_PROMPT_EN@
}

/// The prompt in the language `lang`: English for `en`, Chinese otherwise.
pub open spec fn prompt(lang: Seq<char>, width: u32, height: u32, today: LocalDate) -> Seq<char> {
    if lang == "en"@ {
        prompt_en(width, height, today)
    } else {
        prompt_zh(width, height, today)
    }
}

/// The note that opens a prompt under the relative coordinate policy.
pub open spec fn relative_note(lang: Seq<char>) -> Seq<char> {
    if lang == "en"@ {
        "Coordinates are relative: both lie between 0 and 1000, whatever the size of the screen.\n"@
    } else {
        "坐标为相对坐标: 横纵坐标均在 0 到 1000 之间, 与屏幕大小无关。\n"@
    }
}

/// The prompt under the relative coordinate policy.
pub open spec fn prompt_relative(lang: Seq<char>, today: LocalDate) -> Seq<char> {
    relative_note(lang) + prompt(lang, 1080, 1920, today)
}

/// The Chinese system prompt with the date and the size of the screen.
pub fn get_system_prompt_zh_with_resolution(width: u32, height: u32, today: &LocalDate) -> (r:
    String)
    ensures
        r@ == prompt_zh(width, height, *today),
{
    let mut out = to_chars("今天的日期是: ");
    push_chinese_date(&mut out, today);
    push_str(&mut out, "\n当前屏幕分辨率: ");
    push_decimal(&mut out, width as u128);
    push_str(&mut out, "x");
    push_decimal(&mut out, height as u128);
    push_str(&mut out, " (宽x高)\n");
    push_str(&mut out, SYSTEM_PROMPT_ZH);
    from_chars(&out)
}

/// The English system prompt with the date and the size of the screen.
pub fn get_system_prompt_en_with_resolution(width: u32, height: u32, today: &LocalDate) -> (r:
    String)
    ensures
        r@ == prompt_en(width, height, *today),
{
    let mut out = to_chars("Today's date is: ");
    push_english_date(&mut out, today);
    push_str(&mut out, "\nCurrent screen resolution: ");
    push_decimal(&mut out, width as u128);
    push_str(&mut out, "x");
    push_decimal(&mut out, height as u128);
    push_str(&mut out, " (width x height)\n");
    push_str(&mut out, SYSTEM_PROMPT_EN);
    from_chars(&out)
}

/// The system prompt in the language `lang` with the date and the size of
/// the screen.
pub fn get_system_prompt_with_resolution(lang: &str, width: u32, height: u32, today: &LocalDate)
    -> (r: String)
    ensures
        r@ == prompt(lang@, width, height, *today),
{
    if str_eq(lang, "en") {
        get_system_prompt_en_with_resolution(width, height, today)
    } else {
        get_system_prompt_zh_with_resolution(width, height, today)
    }
}

/// The Chinese system prompt for a screen of 1080 by 1920 pixels.
pub fn get_system_prompt_zh(today: &LocalDate) -> (r: String)
    ensures
        r@ == prompt_zh(1080, 1920, *today),
{
    get_system_prompt_zh_with_resolution(1080, 1920, today)
}

/// The English system prompt for a screen of 1080 by 1920 pixels.
pub fn get_system_prompt_en(today: &LocalDate) -> (r: String)
    ensures
        r@ == prompt_en(1080, 1920, *today),
{
    get_system_prompt_en_with_resolution(1080, 1920, today)
}

/// The system prompt in the language `lang` for a screen of 1080 by 1920
/// pixels.
pub fn get_system_prompt(lang: &str, today: &LocalDate) -> (r: String)
    ensures
        r@ == prompt(lang@, 1080, 1920, *today),
{
    get_system_prompt_with_resolution(lang, 1080, 1920, today)
}

/// The system prompt under the relative coordinate policy.
pub fn get_system_prompt_relative(lang: &str, today: &LocalDate) -> (r: String)
    ensures
        r@ == prompt_relative(lang@, *today),
{
    let mut out: Vec<char> = Vec::new();
    if str_eq(lang, "en") {
        push_str(
            &mut out,
            "Coordinates are relative: both lie between 0 and 1000, whatever the size of the screen.\n",
        );
    } else {
        push_str(&mut out, "坐标为相对坐标: 横纵坐标均在 0 到 1000 之间, 与屏幕大小无关。\n");
    }
    let rest = get_system_prompt(lang, today);
    push_str(&mut out, rest.as_str());
    from_chars(&out)
}

} // verus!

//! The applications that can be launched by name.

use crate::text::str_eq;
use vstd::prelude::*;

verus! {

/// Display names and the packages they stand for.
pub const APP_PACKAGES: [(&'static str, &'static str); 99] = [
    ("微信", "com.tencent.mm"),
    ("QQ", "com.tencent.mobileqq"),
    ("微博", "com.sina.weibo"),
    ("淘宝", "com.taobao.taobao"),
    ("京东", "com.jingdong.app.mall"),
    ("拼多多", "com.xunmeng.pinduoduo"),
    ("淘宝闪购", "com.taobao.taobao"),
    ("京东秒送", "com.jingdong.app.mall"),
    ("小红书", "com.xingin.xhs"),
    ("豆瓣", "com.douban.frodo"),
    ("知乎", "com.zhihu.android"),
    ("高德地图", "com.autonavi.minimap"),
    ("百度地图", "com.baidu.BaiduMap"),
    ("美团", "com.sankuai.meituan"),
    ("大众点评", "com.dianping.v1"),
    ("饿了么", "me.ele"),
    ("肯德基", "com.yek.android.kfc.activitys"),
    ("携程", "ctrip.android.view"),
    ("铁路12306", "com.MobileTicket"),
    ("12306", "com.MobileTicket"),
    ("去哪儿", "com.Qunar"),
    ("去哪儿旅行", "com.Qunar"),
    ("滴滴出行", "com.sdu.did.psnger"),
    ("bilibili", "tv.danmaku.bili"),
    ("抖音", "com.ss.android.ugc.aweme"),
    ("快手", "com.smile.gifmaker"),
    ("腾讯视频", "com.tencent.qqlive"),
    ("爱奇艺", "com.qiyi.video"),
    ("优酷视频", "com.youku.phone"),
    ("芒果TV", "com.hunantv.imgo.activity"),
    ("红果短剧", "com.phoenix.read"),
    ("网易云音乐", "com.netease.cloudmusic"),
    ("QQ音乐", "com.tencent.qqmusic"),
    ("汽水音乐", "com.luna.music"),
    ("喜马拉雅", "com.ximalaya.ting.android"),
    ("番茄小说", "com.dragon.read"),
    ("番茄免费小说", "com.dragon.read"),
    ("七猫免费小说", "com.kmxs.reader"),
    ("飞书", "com.ss.android.lark"),
    ("QQ邮箱", "com.tencent.androidqqmail"),
    ("豆包", "com.larus.nova"),
    ("keep", "com.gotokeep.keep"),
    ("美柚", "com.lingan.seeyou"),
    ("腾讯新闻", "com.tencent.news"),
    ("今日头条", "com.ss.android.article.news"),
    ("贝壳找房", "com.lianjia.beike"),
    ("安居客", "com.anjuke.android.app"),
    ("同花顺", "com.hexin.plat.android"),
    ("星穹铁道", "com.miHoYo.hkrpg"),
    ("崩坏：星穹铁道", "com.miHoYo.hkrpg"),
    ("恋与深空", "com.papegames.lysk.cn"),
    ("AndroidSystemSettings", "com.android.settings"),
    ("Android System Settings", "com.android.settings"),
    ("Android  System Settings", "com.android.settings"),
    ("Android-System-Settings", "com.android.settings"),
    ("Settings", "com.android.settings"),
    ("AudioRecorder", "com.android.soundrecorder"),
    ("audiorecorder", "com.android.soundrecorder"),
    ("Bluecoins", "com.rammigsoftware.bluecoins"),
    ("bluecoins", "com.rammigsoftware.bluecoins"),
    ("Broccoli", "com.flauschcode.broccoli"),
    ("broccoli", "com.flauschcode.broccoli"),
    ("Booking.com", "com.booking"),
    ("Booking", "com.booking"),
    ("booking.com", "com.booking"),
    ("booking", "com.booking"),
    ("BOOKING.COM", "com.booking"),
    ("Chrome", "com.android.chrome"),
    ("chrome", "com.android.chrome"),
    ("Google Chrome", "com.android.chrome"),
    ("Clock", "com.android.deskclock"),
    ("clock", "com.android.deskclock"),
    ("Contacts", "com.android.contacts"),
    ("contacts", "com.android.contacts"),
    ("Duolingo", "com.duolingo"),
    ("duolingo", "com.duolingo"),
    ("Expedia", "com.expedia.bookings"),
    ("expedia", "com.expedia.bookings"),
    ("Files", "com.android.fileexplorer"),
    ("files", "com.android.fileexplorer"),
    ("File Manager", "com.android.fileexplorer"),
    ("Gmail", "com.google.android.gm"),
    ("gmail", "com.google.android.gm"),
    ("Google Maps", "com.google.android.apps.maps"),
    ("Maps", "com.google.android.apps.maps"),
    ("YouTube", "com.google.android.youtube"),
    ("youtube", "com.google.android.youtube"),
    ("Camera", "com.android.camera"),
    ("camera", "com.android.camera"),
    ("Gallery", "com.android.gallery3d"),
    ("gallery", "com.android.gallery3d"),
    ("Calculator", "com.android.calculator2"),
    ("calculator", "com.android.calculator2"),
    ("Calendar", "com.android.calendar"),
    ("calendar", "com.android.calendar"),
    ("Messages", "com.android.mms"),
    ("messages", "com.android.mms"),
    ("Phone", "com.android.dialer"),
    ("phone", "com.android.dialer"),
];

/// The index of the first entry at or after `from` whose name is `name`, or -1.
pub open spec fn app_index(name: Seq<char>, from: int) -> int
    decreases APP_PACKAGES@.len() - from,
{
    if from < 0 || from >= APP_PACKAGES@.len() {
        -1
    } else if APP_PACKAGES@[from].0@ == name {
        from
    } else {
        app_index(name, from + 1)
    }
}

/// The package that the display name `name` stands for.
pub open spec fn package_of(name: Seq<char>) -> Option<Seq<char>> {
    let i = app_index(name, 0);
    if i < 0 {
        None
    } else {
        Some(APP_PACKAGES@[i].1@)
    }
}

/// The package name of an application, by its display name.
pub fn get_package(app_name: &str) -> (r: Option<&'static str>)
    ensures
        match r {
            Some(p) => package_of(app_name@) == Some(p@),
            None => package_of(app_name@) is None,
        },
{
    let mut i: usize = 0;
    while i < APP_PACKAGES.len()
        invariant
            i <= APP_PACKAGES@.len(),
            app_index(app_name@, 0) == app_index(app_name@, i as int),
        decreases APP_PACKAGES@.len() - i,
    {
        let entry = APP_PACKAGES[i];
        if str_eq(entry.0, app_name) {
            return Some(entry.1);
        }
        i += 1;
    }
    None
}

} // verus!

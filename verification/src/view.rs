//! Renderer-agnostic view decisions: which stage view a stage index selects,
//! the headings and sidebar labels, and the class strings of the layout
//! containers. Rendering itself lives with the host.

use vstd::prelude::*;

use crate::context::opt_str_view;

verus! {

/// The view the content area shows for a stage index.
#[derive(Debug, Clone, Copy, PartialEq, Eq, Structural)]
pub enum StageView {
    /// Stage 0: pick the target application directory.
    SelectGame,
    /// Stage 1: pick the content source.
    SelectSource,
    /// Stage 2: pick the packages to install.
    SelectMods,
    /// Stage 3: the engine is installing.
    Installing,
    /// Stage 4: done.
    Completed,
    /// Any other index: the fallback guarding against state-machine
    /// corruption; it offers nothing but a reset.
    Invalid,
}

/// The stage view a stage index selects.
pub open spec fn stage_view_of(stage: nat) -> StageView {
    if stage == 0 {
        StageView::SelectGame
    } else if stage == 1 {
        StageView::SelectSource
    } else if stage == 2 {
        StageView::SelectMods
    } else if stage == 3 {
        StageView::Installing
    } else if stage == 4 {
        StageView::Completed
    } else {
        StageView::Invalid
    }
}

/// Select the active stage view from the stage index.
pub fn active_stage_view(stage: usize) -> (r: StageView)
    ensures
        r == stage_view_of(stage as nat),
{
    if stage == 0 {
        StageView::SelectGame
    } else if stage == 1 {
        StageView::SelectSource
    } else if stage == 2 {
        StageView::SelectMods
    } else if stage == 3 {
        StageView::Installing
    } else if stage == 4 {
        StageView::Completed
    } else {
        StageView::Invalid
    }
}

/// The heading of a stage view.
pub open spec fn heading_of(v: StageView) -> Seq<char> {
    match v {
        StageView::SelectGame => "选择游戏安装目录"@,
        StageView::SelectSource => "选择安装源"@,
        StageView::SelectMods => "选择要安装的模组"@,
        StageView::Installing => "安装中"@,
        StageView::Completed => "安装完成"@,
        StageView::Invalid => "你不该到这里的"@,
    }
}

/// The heading the content area shows above the active stage view.
pub fn stage_heading(stage: usize) -> (r: String)
    ensures
        r@ == heading_of(stage_view_of(stage as nat)),
{
    match active_stage_view(stage) {
        StageView::SelectGame => String::from_str("选择游戏安装目录"),
        StageView::SelectSource => String::from_str("选择安装源"),
        StageView::SelectMods => String::from_str("选择要安装的模组"),
        StageView::Installing => String::from_str("安装中"),
        StageView::Completed => String::from_str("安装完成"),
        StageView::Invalid => String::from_str("你不该到这里的"),
    }
}

/// Whether the content area offers a reset control: exactly on the
/// invalid-stage fallback (every defined stage drives the wizard forward
/// through its own controls instead).
pub fn reset_offered(stage: usize) -> (r: bool)
    ensures
        r == (stage_view_of(stage as nat) is Invalid),
{
    stage > 4
}

/// The message the completion stage shows.
pub fn completed_text() -> (r: String)
    ensures
        r@ == "安装完成！现在你可以关闭窗口了"@,
{
    String::from_str("安装完成！现在你可以关闭窗口了")
}

/// The five sidebar labels, one per defined stage, in stage order.
pub fn sidebar_items() -> (r: Vec<String>)
    ensures
        r@.len() == 5,
        r@[0]@ == "选择安装目录"@,
        r@[1]@ == "选择安装源"@,
        r@[2]@ == "选择模组"@,
        r@[3]@ == "安装中"@,
        r@[4]@ == "安装完成"@,
{
    let mut v: Vec<String> = Vec::new();
    v.push(String::from_str("选择安装目录"));
    v.push(String::from_str("选择安装源"));
    v.push(String::from_str("选择模组"));
    v.push(String::from_str("安装中"));
    v.push(String::from_str("安装完成"));
    v
}

/// The class of one sidebar item: the entry of the active stage is marked.
pub fn sidebar_stage_class(stage: usize, current: usize) -> (r: String)
    ensures
        stage == current ==> r@ == "stage-item active"@,
        stage != current ==> r@ == "stage-item"@,
{
    if stage == current {
        String::from_str("stage-item active")
    } else {
        String::from_str("stage-item")
    }
}

/// The ordinal shown in a sidebar item's icon: stages count from one there.
pub fn sidebar_stage_number(stage: usize) -> (r: usize)
    requires
        stage < usize::MAX,
    ensures
        r == stage + 1,
{
    stage + 1
}

/// The class string of a flex container: optional extra class, the axis
/// word, and the reverse marker.
pub open spec fn flex_class_of(class: Option<Seq<char>>, axis: Seq<char>, reverse: Option<
    bool,
>) -> Seq<char> {
    (match class {
        Some(c) => c,
        None => Seq::empty(),
    }) + axis + (if reverse == Some(true) {
        "reverse"@
    } else {
        ""@
    })
}

/// The class string of a row container.
pub fn row_class(class: &Option<String>, reverse: &Option<bool>) -> (r: String)
    ensures
        r@ == flex_class_of(opt_str_view(*class), " row "@, *reverse),
{
    flex_class(class, " row ", reverse)
}

/// The class string of a column container.
pub fn column_class(class: &Option<String>, reverse: &Option<bool>) -> (r: String)
    ensures
        r@ == flex_class_of(opt_str_view(*class), " column "@, *reverse),
{
    flex_class(class, " column ", reverse)
}

fn flex_class(class: &Option<String>, axis: &str, reverse: &Option<bool>) -> (r: String)
    ensures
        r@ == flex_class_of(opt_str_view(*class), axis@, *reverse),
{
    let mut s = match class {
        Some(c) => c.clone(),
        None => String::new(),
    };
    s.append(axis);
    let rev = match reverse {
        Some(b) => *b,
        None => false,
    };
    if rev {
        s.append("reverse");
    } else {
        s.append("");
    }
    s
}

} // verus!

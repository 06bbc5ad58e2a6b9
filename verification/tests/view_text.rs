use kmf_installer::view::{
    column_class, completed_text, row_class, sidebar_items, sidebar_stage_class,
    sidebar_stage_number, stage_heading,
};

#[test]
fn headings_follow_the_stage_index() {
    assert_eq!(stage_heading(0), "选择游戏安装目录");
    assert_eq!(stage_heading(1), "选择安装源");
    assert_eq!(stage_heading(2), "选择要安装的模组");
    assert_eq!(stage_heading(3), "安装中");
    assert_eq!(stage_heading(4), "安装完成");
    assert_eq!(stage_heading(5), "你不该到这里的");
}

#[test]
fn sidebar_lists_the_five_stages() {
    let items = sidebar_items();
    assert_eq!(
        items,
        vec![
            String::from("选择安装目录"),
            String::from("选择安装源"),
            String::from("选择模组"),
            String::from("安装中"),
            String::from("安装完成"),
        ]
    );
    assert_eq!(sidebar_stage_number(0), 1);
    assert_eq!(sidebar_stage_number(4), 5);
}

#[test]
fn sidebar_marks_the_active_stage() {
    assert_eq!(sidebar_stage_class(2, 2), "stage-item active");
    assert_eq!(sidebar_stage_class(1, 2), "stage-item");
}

#[test]
fn layout_classes_are_assembled_exactly() {
    assert_eq!(row_class(&None, &None), " row ");
    assert_eq!(row_class(&Some(String::from("x")), &Some(true)), "x row reverse");
    assert_eq!(row_class(&Some(String::from("x")), &Some(false)), "x row ");
    assert_eq!(column_class(&Some(String::from("stage-sidebar")), &None), "stage-sidebar column ");
    assert_eq!(column_class(&None, &Some(true)), " column reverse");
}

#[test]
fn completion_message_is_exact() {
    assert_eq!(completed_text(), "安装完成！现在你可以关闭窗口了");
}

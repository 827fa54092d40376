use match_download::catalog::{build_download_items, work_save_path, UserContent, Work, WorkFile};
use match_download::text::sanitize_filename;

fn work(student_name: Option<&str>, match_title: Option<&str>, files: Vec<(&str, &str)>) -> Work {
    Work {
        id: 1,
        title: "t".to_string(),
        student_id: 42,
        student_name: student_name.map(|s| s.to_string()),
        college_name: Some("工学院".to_string()),
        major_name: None,
        class_name: Some("1/2班".to_string()),
        match_title: match_title.map(|s| s.to_string()),
        stage_name: Some("初赛".to_string()),
        check_status: 0,
        createtime: 0,
        files: files
            .into_iter()
            .enumerate()
            .map(|(k, (url, name))| WorkFile {
                id: k as i32,
                element_label: "l".to_string(),
                user_content: UserContent { url: url.to_string(), name: name.to_string() },
                element_type: 1,
            })
            .collect(),
    }
}

#[test]
fn unsafe_characters_become_underscores() {
    assert_eq!(sanitize_filename("a/b\\c:d*e?f\"g<h>i|j"), "a_b_c_d_e_f_g_h_i_j");
    assert_eq!(sanitize_filename("报告 v1.pdf"), "报告 v1.pdf");
    assert_eq!(sanitize_filename(""), "");
}

#[test]
fn work_directory_uses_placeholders_and_sanitizes() {
    let w = work(None, Some("春季:赛"), vec![]);
    assert_eq!(
        work_save_path("/out", &w),
        "/out/春季_赛/初赛/工学院/未知专业/1_2班/未知学生_42"
    );
    let w2 = work(Some("张三"), None, vec![]);
    assert_eq!(
        work_save_path("/out", &w2),
        "/out/未命名比赛/初赛/工学院/未知专业/1_2班/张三_42"
    );
}

#[test]
fn negative_student_number_keeps_its_sign() {
    let mut w = work(Some("李四"), Some("m"), vec![]);
    w.student_id = -7;
    assert_eq!(work_save_path("/o", &w), "/o/m/初赛/工学院/未知专业/1_2班/李四_-7");
}

#[test]
fn one_item_per_file_in_order() {
    let works = vec![
        work(Some("张三"), Some("m"), vec![("http://h/1", "a?.txt"), ("http://h/2", "b.txt")]),
        work(Some("王五"), Some("m"), vec![("http://h/3", "c.txt")]),
    ];
    let items = build_download_items(&works, &Some("batch-1".to_string()), "/out");
    assert_eq!(items.len(), 3);
    assert_eq!(items[0].url, "http://h/1");
    assert_eq!(items[0].filename, "a_.txt");
    assert_eq!(items[0].save_path, "/out/m/初赛/工学院/未知专业/1_2班/张三_42");
    assert_eq!(items[1].filename, "b.txt");
    assert_eq!(items[2].url, "http://h/3");
    assert_eq!(items[2].save_path, "/out/m/初赛/工学院/未知专业/1_2班/王五_42");
    for it in &items {
        assert_eq!(it.batch_id, Some("batch-1".to_string()));
        assert_eq!(it.id.len(), 36);
    }
    assert_ne!(items[0].id, items[1].id);
    assert_ne!(items[1].id, items[2].id);
}

#[test]
fn no_works_no_items() {
    let items = build_download_items(&Vec::new(), &None, "/out");
    assert!(items.is_empty());
}

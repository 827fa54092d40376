//! The records of the competition catalogue, and the download items that
//! exporting submitted works produces.
use crate::model::{copy_opt_string, DownloadItem};
use crate::text::{push_char, push_sanitized, push_signed_decimal, sanitized, signed_decimal};
use vstd::prelude::*;

verus! {

#[derive(Debug)]
pub struct School {
    pub id: i32,
    pub school_name: String,
    pub domain: Option<String>,
}

#[derive(Debug)]
pub struct Match {
    pub id: i32,
    pub title: String,
    pub createtime: i64,
}

#[derive(Debug)]
pub struct Stage {
    pub id: i32,
    pub title: String,
    pub sort: i32,
}

#[derive(Debug)]
pub struct UserContent {
    pub url: String,
    pub name: String,
}

#[derive(Debug)]
pub struct WorkFile {
    pub id: i32,
    pub element_label: String,
    pub user_content: UserContent,
    pub element_type: i32,
}

#[derive(Debug)]
pub struct Work {
    pub id: i32,
    pub title: String,
    pub student_id: i32,
    pub student_name: Option<String>,
    pub college_name: Option<String>,
    pub major_name: Option<String>,
    pub class_name: Option<String>,
    pub match_title: Option<String>,
    pub stage_name: Option<String>,
    pub check_status: i32,
    pub createtime: i64,
    pub files: Vec<WorkFile>,
}

pub open spec fn or_default(o: Option<String>, d: Seq<char>) -> Seq<char> {
    match o {
        Some(s) => s@,
        None => d,
    }
}

/// `<student name>_<student number>`.
pub open spec fn student_folder(w: Work) -> Seq<char> {
    or_default(w.student_name, "未知学生"@) + seq!['_'] + signed_decimal(w.student_id as int)
}

/// Where the files of work `w` go under `save_path`:
/// `<match>/<stage>/<college>/<major>/<class>/<student>_<number>`, each
/// component sanitized, with a placeholder for each missing name.
pub open spec fn work_dir(save_path: Seq<char>, w: Work) -> Seq<char> {
    save_path + seq!['/'] + sanitized(or_default(w.match_title, "未命名比赛"@)) + seq!['/']
        + sanitized(or_default(w.stage_name, "未命名赛段"@)) + seq!['/'] + sanitized(
        or_default(w.college_name, "未知学院"@),
    ) + seq!['/'] + sanitized(or_default(w.major_name, "未知专业"@)) + seq!['/'] + sanitized(
        or_default(w.class_name, "未知班级"@),
    ) + seq!['/'] + sanitized(student_folder(w))
}

/// What an item holds but its identity.
pub struct ItemPlan {
    pub url: Seq<char>,
    pub filename: Seq<char>,
    pub save_path: Seq<char>,
}

pub open spec fn plan_of(item: DownloadItem) -> ItemPlan {
    ItemPlan { url: item.url@, filename: item.filename@, save_path: item.save_path@ }
}

pub open spec fn file_plan(save_path: Seq<char>, w: Work, f: WorkFile) -> ItemPlan {
    ItemPlan {
        url: f.user_content.url@,
        filename: sanitized(f.user_content.name@),
        save_path: work_dir(save_path, w),
    }
}

pub open spec fn work_plans(save_path: Seq<char>, w: Work) -> Seq<ItemPlan> {
    w.files@.map_values(|f: WorkFile| file_plan(save_path, w, f))
}

/// One item per file, work after work, file after file.
pub open spec fn plans(save_path: Seq<char>, works: Seq<Work>) -> Seq<ItemPlan>
    decreases works.len(),
{
    if works.len() == 0 {
        Seq::empty()
    } else {
        plans(save_path, works.drop_last()) + work_plans(save_path, works.last())
    }
}

fn push_name_or(s: &mut String, name: &Option<String>, placeholder: &str)
    ensures
        final(s)@ == old(s)@ + sanitized(
            match name {
                Some(v) => v@,
                None => placeholder@,
            },
        ),
{
    match name {
        Some(v) => push_sanitized(s, v.as_str()),
        None => push_sanitized(s, placeholder),
    }
}

/// The directory that the files of `work` are saved in, under `save_path`.
pub fn work_save_path(save_path: &str, work: &Work) -> (r: String)
    ensures
        r@ == work_dir(save_path@, *work),
{
    let mut r = String::new();
    r.append(save_path);
    push_char(&mut r, '/');
    push_name_or(&mut r, &work.match_title, "未命名比赛");
    push_char(&mut r, '/');
    push_name_or(&mut r, &work.stage_name, "未命名赛段");
    push_char(&mut r, '/');
    push_name_or(&mut r, &work.college_name, "未知学院");
    push_char(&mut r, '/');
    push_name_or(&mut r, &work.major_name, "未知专业");
    push_char(&mut r, '/');
    push_name_or(&mut r, &work.class_name, "未知班级");
    push_char(&mut r, '/');
    let mut folder = String::new();
    match &work.student_name {
        Some(v) => folder.append(v.as_str()),
        None => folder.append("未知学生"),
    }
    push_char(&mut folder, '_');
    push_signed_decimal(&mut folder, work.student_id);
    assert(folder@ =~= student_folder(*work));
    push_sanitized(&mut r, folder.as_str());
    assert(r@ =~= work_dir(save_path@, *work));
    r
}

/// Relies on `uuid::Uuid::new_v4`, a random identifier, written out by its
/// `Display` impl in the hyphenated form of 36 characters.
#[verifier::external_body]
fn fresh_item_id() -> (r: String)
    ensures
        r@.len() == 36,
{
    uuid::Uuid::new_v4().to_string()
}

/// One download item per file of `works`, in order: the file's URL, its
/// sanitized name, the work's directory under `save_path`, `batch_id`, and a
/// fresh random identifier of 36 characters.
pub fn build_download_items(works: &Vec<Work>, batch_id: &Option<String>, save_path: &str) -> (r:
    Vec<DownloadItem>)
    ensures
        r@.map_values(|i: DownloadItem| plan_of(i)) == plans(save_path@, works@),
        forall|k: int| 0 <= k < r@.len() ==> #[trigger] r@[k].batch_id == *batch_id,
        forall|k: int| 0 <= k < r@.len() ==> (#[trigger] r@[k]).id@.len() == 36,
{
    let mut r: Vec<DownloadItem> = Vec::new();
    let mut i: usize = 0;
    while i < works.len()
        invariant
            i <= works@.len(),
            r@.map_values(|i: DownloadItem| plan_of(i)) == plans(
                save_path@,
                works@.subrange(0, i as int),
            ),
            forall|k: int| 0 <= k < r@.len() ==> #[trigger] r@[k].batch_id == *batch_id,
            forall|k: int| 0 <= k < r@.len() ==> (#[trigger] r@[k]).id@.len() == 36,
        decreases works@.len() - i,
    {
        let w = &works[i];
        let dir = work_save_path(save_path, w);
        let ghost done = plans(save_path@, works@.subrange(0, i as int));
        let mut j: usize = 0;
        while j < w.files.len()
            invariant
                i < works@.len(),
                w == works@[i as int],
                dir@ == work_dir(save_path@, *w),
                j <= w.files@.len(),
                r@.map_values(|i: DownloadItem| plan_of(i)) == done + work_plans(
                    save_path@,
                    *w,
                ).subrange(0, j as int),
                forall|k: int| 0 <= k < r@.len() ==> #[trigger] r@[k].batch_id == *batch_id,
                forall|k: int| 0 <= k < r@.len() ==> (#[trigger] r@[k]).id@.len() == 36,
            decreases w.files@.len() - j,
        {
            let f = &w.files[j];
            let item = DownloadItem {
                id: fresh_item_id(),
                batch_id: copy_opt_string(batch_id),
                url: f.user_content.url.clone(),
                filename: crate::text::sanitize_filename(f.user_content.name.as_str()),
                save_path: dir.clone(),
            };
            let ghost before = r@;
            r.push(item);
            assert(r@.map_values(|i: DownloadItem| plan_of(i)) =~= before.map_values(
                |i: DownloadItem| plan_of(i),
            ).push(plan_of(item)));
            assert(work_plans(save_path@, *w).subrange(0, j + 1) =~= work_plans(
                save_path@,
                *w,
            ).subrange(0, j as int).push(file_plan(save_path@, *w, *f)));
            j = j + 1;
        }
        assert(works@.subrange(0, i + 1).drop_last() =~= works@.subrange(0, i as int));
        assert(work_plans(save_path@, *w).subrange(0, j as int) =~= work_plans(save_path@, *w));
        i = i + 1;
    }
    assert(works@.subrange(0, i as int) =~= works@);
    r
}

} // verus!

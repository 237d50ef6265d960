use dotconfig::copy::{copy_outcome, plan_copy, CopySource, DirEntryInfo};
use dotconfig::reconcile::{Failure, Outcome};

fn entry(name: &str, is_file: bool) -> DirEntryInfo {
    DirEntryInfo { name: name.to_string(), is_file }
}

#[test]
fn directory_copy_takes_regular_files_only() {
    let listing = CopySource::Dir {
        entries: vec![entry("a.ttf", true), entry("sub", false), entry("b.ttf", true), entry("c.otf", true)],
    };
    let jobs = plan_copy(&"./fonts".to_string(), &"/home/ana/.fonts".to_string(), &listing);
    assert_eq!(jobs.len(), 3);
    assert_eq!(jobs[0].from, "./fonts/a.ttf");
    assert_eq!(jobs[0].to, "/home/ana/.fonts/a.ttf");
    assert_eq!(jobs[1].to, "/home/ana/.fonts/b.ttf");
    assert_eq!(jobs[2].from, "./fonts/c.otf");
    assert_eq!(jobs[2].to, "/home/ana/.fonts/c.otf");
}

#[test]
fn single_file_copied_to_full_path() {
    let jobs = plan_copy(&"./ZSH/zshrc".to_string(), &"/home/ana/.zshrc".to_string(), &CopySource::NotDir);
    assert_eq!(jobs.len(), 1);
    assert_eq!(jobs[0].from, "./ZSH/zshrc");
    assert_eq!(jobs[0].to, "/home/ana/.zshrc");
}

#[test]
fn empty_destination_plans_nothing() {
    let listing = CopySource::Dir { entries: vec![entry("a", true)] };
    assert!(plan_copy(&"./fonts".to_string(), &String::new(), &listing).is_empty());
    assert!(plan_copy(&"./x".to_string(), &String::new(), &CopySource::NotDir).is_empty());
}

#[test]
fn empty_directory_plans_nothing() {
    let listing = CopySource::Dir { entries: vec![entry("sub", false)] };
    assert!(plan_copy(&"./fonts".to_string(), &"/d".to_string(), &listing).is_empty());
}

#[test]
fn copy_outcome_counts_failures() {
    let listing = CopySource::NotDir;
    assert_eq!(copy_outcome(&listing, &vec![true, true, true]), Outcome::Copied);
    assert_eq!(copy_outcome(&listing, &vec![]), Outcome::Copied);
    assert_eq!(
        copy_outcome(&listing, &vec![false, true, false]),
        Outcome::Failed { reason: Failure::Copy { failed: 2 } }
    );
}

#[test]
fn unreadable_source_fails_without_copies() {
    let jobs = plan_copy(&"./missing".to_string(), &"/d".to_string(), &CopySource::Unreadable);
    assert!(jobs.is_empty());
    assert_eq!(
        copy_outcome(&CopySource::Unreadable, &vec![]),
        Outcome::Failed { reason: Failure::SourceUnreadable }
    );
}

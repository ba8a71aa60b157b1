use multi_instance::instance::{InstanceConfig, Timestamp};
use multi_instance::profile::{Profile, ProfileId};

fn config(name: &str) -> InstanceConfig {
    InstanceConfig::new(name.to_string(), format!("/bin/{}", name))
}

#[test]
fn a_new_profile_is_empty_and_unused() {
    let profile = Profile::new("Work".to_string());
    assert_eq!(profile.name, "Work");
    assert_eq!(profile.description, "");
    assert_eq!(profile.category, None);
    assert!(profile.instances.is_empty());
    assert!(!profile.staggered_launch);
    assert_eq!(profile.launch_delay_ms, 1000);
    assert_eq!(profile.created_at, profile.modified_at);
    assert_eq!(profile.last_used_at, None);
    assert_eq!(profile.launch_count, 0);
    assert!(!profile.is_favorite);
    assert_eq!(profile.icon_path, None);
    assert!(profile.tags.is_empty());
    assert!(profile.is_empty());
    assert_eq!(profile.instance_count(), 0);
    assert_eq!((profile.id.0 >> 76) & 0xf, 4);
}

#[test]
fn profile_ids_render_like_instance_ids() {
    assert_eq!(ProfileId(0xff).to_text(), "00000000-0000-0000-0000-0000000000ff");
    assert_ne!(ProfileId::new(), ProfileId::new());
}

#[test]
fn instances_are_added_at_the_end_and_removed_by_index() {
    let mut profile = Profile::new("P".to_string());
    profile.add_instance(config("a"));
    profile.add_instance(config("b"));
    profile.add_instance(config("c"));
    assert_eq!(profile.instance_count(), 3);
    assert!(!profile.is_empty());
    let removed = profile.remove_instance(1).unwrap();
    assert_eq!(removed.name, "b");
    let names: Vec<&str> = profile.instances.iter().map(|c| c.name.as_str()).collect();
    assert_eq!(names, vec!["a", "c"]);
    assert!(profile.remove_instance(2).is_none());
    assert!(profile.remove_instance(usize::MAX).is_none());
    assert_eq!(profile.instance_count(), 2);
}

#[test]
fn mark_used_counts_launches() {
    let mut profile = Profile::new("P".to_string());
    profile.mark_used_at(Timestamp { secs: 9, nanos: 1 });
    assert_eq!(profile.launch_count, 1);
    assert_eq!(profile.last_used_at, Some(Timestamp { secs: 9, nanos: 1 }));
    profile.mark_used();
    assert_eq!(profile.launch_count, 2);
    assert!(profile.last_used_at.unwrap().secs > 1_500_000_000);
    profile.launch_count = u32::MAX;
    profile.mark_used();
    assert_eq!(profile.launch_count, u32::MAX);
}

#[test]
fn toggle_favorite_flips_the_flag() {
    let mut profile = Profile::new("P".to_string());
    profile.toggle_favorite();
    assert!(profile.is_favorite);
    profile.toggle_favorite();
    assert!(!profile.is_favorite);
    profile.mark_modified();
    assert!(!profile.is_favorite);
    assert_eq!(profile.name, "P");
}

#[test]
fn tags_are_kept_once() {
    let mut profile = Profile::new("P".to_string());
    profile.add_tag("games".to_string());
    profile.add_tag("work".to_string());
    profile.add_tag("games".to_string());
    assert_eq!(profile.tags, vec!["games", "work"]);
    profile.remove_tag("missing");
    assert_eq!(profile.tags, vec!["games", "work"]);
    profile.remove_tag("games");
    assert_eq!(profile.tags, vec!["work"]);
    profile.remove_tag("work");
    assert!(profile.tags.is_empty());
}

#[test]
fn remove_tag_takes_the_first_of_equal_tags() {
    let mut profile = Profile::new("P".to_string());
    profile.tags = vec!["a".to_string(), "b".to_string(), "a".to_string()];
    profile.remove_tag("a");
    assert_eq!(profile.tags, vec!["b", "a"]);
}

#[test]
fn mark_modified_sets_the_time_of_the_last_modification() {
    let mut profile = Profile::new("P".to_string());
    profile.add_tag("t".to_string());
    profile.mark_modified_at(Timestamp { secs: -5, nanos: 7 });
    assert_eq!(profile.modified_at, Timestamp { secs: -5, nanos: 7 });
    assert_eq!(profile.name, "P");
    assert_eq!(profile.tags, vec!["t"]);
    assert_eq!(profile.launch_count, 0);
    profile.mark_modified();
    assert!(profile.modified_at.secs > 1_500_000_000);
    assert!(profile.modified_at.nanos < 1_000_000_000);
    assert_eq!(profile.name, "P");
    assert_eq!(profile.tags, vec!["t"]);
}

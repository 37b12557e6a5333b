use ritual_service::service::{MyRitualService, RitualRequest, SyncTraitsRequest};

#[test]
fn perform_ritual_named_fire() {
    let mut service = MyRitualService::new();
    let out = service.perform_ritual(&RitualRequest { name: String::from("fire") });
    assert!(out.response.success);
    assert_eq!(out.response.message, "Successfully performed ritual: fire.");
    assert_eq!(out.milestone, None);
    assert_eq!(service.ritual_count(), 1);
}

#[test]
fn perform_ritual_empty_name() {
    let mut service = MyRitualService::new();
    let out = service.perform_ritual(&RitualRequest { name: String::new() });
    assert!(out.response.success);
    assert_eq!(out.response.message, "Successfully performed ritual: .");
    assert_eq!(out.milestone, None);
}

#[test]
fn sync_traits_acknowledges_and_leaves_counter_alone() {
    let mut service = MyRitualService::new();
    let resp = service.sync_traits(&SyncTraitsRequest {});
    assert!(resp.success);
    assert_eq!(resp.message, "Successfully synchronized traits.");
    assert_eq!(service.ritual_count(), 0);
    let out = service.perform_ritual(&RitualRequest { name: String::from("water") });
    assert_eq!(service.ritual_count(), 1);
    assert_eq!(out.milestone, None);
    let resp = service.sync_traits(&SyncTraitsRequest {});
    assert!(resp.success);
    assert_eq!(service.ritual_count(), 1);
}

#[test]
fn five_sequential_rituals_count_up_with_one_milestone() {
    let mut service = MyRitualService::new();
    let mut milestones: Vec<Option<usize>> = Vec::new();
    for k in 1..=5usize {
        let out = service.perform_ritual(&RitualRequest { name: String::from("fire") });
        assert_eq!(service.ritual_count(), k);
        milestones.push(out.milestone);
    }
    assert_eq!(milestones, vec![None, None, None, None, Some(5)]);
}

#[test]
fn milestone_every_fifth_ritual() {
    let mut service = MyRitualService::new();
    let mut emitted: Vec<usize> = Vec::new();
    for _ in 0..12 {
        let out = service.perform_ritual(&RitualRequest { name: String::from("earth") });
        if let Some(total) = out.milestone {
            emitted.push(total);
        }
    }
    assert_eq!(emitted, vec![5, 10]);
    assert_eq!(service.ritual_count(), 12);
}

#[test]
fn fresh_and_default_service_start_at_zero() {
    let service = MyRitualService::new();
    assert_eq!(service.ritual_count(), 0);
    let service = MyRitualService::default();
    assert_eq!(service.ritual_count(), 0);
}

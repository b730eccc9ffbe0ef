use yunchaoplus_rw::status::{ObjType, Status};

#[test]
fn only_pending_and_canceled_are_update_targets() {
    assert!(!Status::Created.is_update_target());
    assert!(Status::Pending.is_update_target());
    assert!(!Status::Succeeded.is_update_target());
    assert!(!Status::Failed.is_update_target());
    assert!(Status::Canceled.is_update_target());
}

use Status::{Canceled, Created, Failed, Pending, Succeeded};

#[test]
fn transition_table_matches_the_lifecycle() {
    assert!(Status::transition_allowed(Created, Pending));
    assert!(Status::transition_allowed(Created, Canceled));
    assert!(Status::transition_allowed(Pending, Succeeded));
    assert!(Status::transition_allowed(Pending, Failed));
    assert!(Status::transition_allowed(Pending, Canceled));

    assert!(!Status::transition_allowed(Created, Succeeded));
    assert!(!Status::transition_allowed(Created, Failed));
    assert!(!Status::transition_allowed(Created, Created));
    assert!(!Status::transition_allowed(Pending, Created));
    assert!(!Status::transition_allowed(Pending, Pending));
    for from in [Succeeded, Failed, Canceled] {
        for to in [Created, Pending, Succeeded, Failed, Canceled] {
            assert!(!Status::transition_allowed(from, to));
        }
    }
}

#[test]
fn wire_names() {
    assert_eq!(ObjType::Recharge.as_str(), "recharge");
    assert_eq!(ObjType::Withdraw.as_str(), "withdraw");
    assert_eq!(Status::Created.as_str(), "created");
    assert_eq!(Status::Pending.as_str(), "pending");
    assert_eq!(Status::Succeeded.as_str(), "succeeded");
    assert_eq!(Status::Failed.as_str(), "failed");
    assert_eq!(Status::Canceled.as_str(), "canceled");
}

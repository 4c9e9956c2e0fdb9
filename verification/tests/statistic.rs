use fypm::flows::statistic::{task_statistic, StatisticsListing};
use fypm::model::StatisticsCommands;

#[test]
fn statistic_picks_deleted_listing() {
    assert_eq!(task_statistic(&StatisticsCommands::Deleted, &true), StatisticsListing::Deleted(true));
}

#[test]
fn statistic_picks_pending_listing() {
    assert_eq!(task_statistic(&StatisticsCommands::Pending, &false), StatisticsListing::Pending(false));
}

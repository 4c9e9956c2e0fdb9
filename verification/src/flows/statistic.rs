use vstd::prelude::*;
use crate::model::StatisticsCommands;

verus! {

/// The statistic listing to show, and whether tasks with parents are left out.
#[derive(Clone, Copy, Debug, PartialEq, Eq, Structural)]
pub enum StatisticsListing {
    Deleted(bool),
    Pending(bool),
}

/// Chooses the listing a statistics command asks for.
pub fn task_statistic(command: &StatisticsCommands, no_parents: &bool) -> (r: StatisticsListing)
    ensures
        r == (match *command {
            StatisticsCommands::Deleted => StatisticsListing::Deleted(*no_parents),
            StatisticsCommands::Pending => StatisticsListing::Pending(*no_parents),
        }),
{
    match command {
        StatisticsCommands::Deleted => StatisticsListing::Deleted(*no_parents),
        StatisticsCommands::Pending => StatisticsListing::Pending(*no_parents),
    }
}

} // verus!

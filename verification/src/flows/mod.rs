pub mod add;
pub mod stop;
pub mod start;
pub mod done;
pub mod add_sub;
pub mod add_seq;
pub mod add_brth;
pub mod add_pl;
pub mod project;
pub mod bulk;
pub mod list_date;
pub mod list_mother;
pub mod statistic;

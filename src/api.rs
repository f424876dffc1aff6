//! The commands: one per endpoint of the API, each with the response it
//! decodes and the way it shows that response to a human reader.

pub mod user_info;
pub mod domain_list;
pub mod organization_list;
pub mod domain_check;
pub mod dns_records_list;
pub mod dns_snapshots_list;
pub mod domain_gluerecords_show;
pub mod domain_contacts_show;
pub mod domain_show;

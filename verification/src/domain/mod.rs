pub mod subscriber_name;
pub mod subscriber_email;
pub mod new_subscriber;

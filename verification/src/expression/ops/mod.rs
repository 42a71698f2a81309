pub mod numeric;

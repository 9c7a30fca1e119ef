pub mod lingua_detector;

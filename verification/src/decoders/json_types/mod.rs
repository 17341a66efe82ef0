pub mod adsbversion;
pub mod altitude;
pub mod barorate;
pub mod calculatedbestflightid;
pub mod dbflags;
pub mod emergency;
pub mod emmittercategory;
pub mod flightstatus;
pub mod geometricverticalaccuracy;
pub mod lastknownposition;
pub mod messagetype;
pub mod mlat;
pub mod nacp;
pub mod nacv;
pub mod navigationmodes;
pub mod receivedmessages;
pub mod sil;
pub mod sourceintegritylevel;
pub mod squawk;
pub mod tisb;
pub mod transponderhex;

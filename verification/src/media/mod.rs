pub mod demuxer;

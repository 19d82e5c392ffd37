//! The standard signature table: the built-in catalog of known magic
//! numbers, supplied as plain data for [`crate::catalog::Catalog::build`].
//!
//! [`is_standard_table`] pins every entry of the table — offset, pattern
//! bytes and description — so contracts over the standard catalog can
//! reason about its exact contents.

use vstd::prelude::*;

use crate::catalog::MagicEntry;
use crate::catalog::catalog_valid;

verus! {

/// Entry `e` has exactly the given offset, pattern bytes and description.
pub open spec fn standard_entry(
    e: MagicEntry,
    offset: usize,
    magic: Seq<u8>,
    description: Seq<char>,
) -> bool {
    &&& e.offset == offset
    &&& e.magic@ == magic
    &&& e.description@ == description
}

/// The image-file entries of the standard table, indices 0 to 26,
/// each pinned to its offset, pattern bytes and description.
pub open spec fn standard_image_entries(s: Seq<MagicEntry>) -> bool {
    &&& standard_entry(s[0], 0, seq![0x00u8, 0x00, 0x01, 0x00], "ICO icon, Windows icon"@)
    &&& standard_entry(s[1], 0, seq![0x00u8, 0x00, 0x02, 0x00], "CUR icon, Windows cursor"@)
    &&& standard_entry(s[2], 0, seq![0x01u8, 0x00, 0x09, 0x00], "Windows Metafile (WMF)"@)
    &&& standard_entry(s[3], 0, seq![0x20u8, 0x00, 0x00, 0x00, 0x4A, 0x46, 0x49, 0x46, 0x58, 0x58, 0x00], "JPEG File Interchange Format with extension data"@)
    &&& standard_entry(s[4], 0, seq![0x38u8, 0x42, 0x50, 0x53], "PSD image, Adobe Photoshop"@)
    &&& standard_entry(s[5], 0, seq![0x41u8, 0x43, 0x31, 0x30], "AutoCAD Drawing file (DWG)"@)
    &&& standard_entry(s[6], 0, seq![0x41u8, 0x49], "Adobe Illustrator Artwork"@)
    &&& standard_entry(s[7], 0, seq![0x42u8, 0x4D], "BMP image, a bitmap format"@)
    &&& standard_entry(s[8], 0, seq![0x47u8, 0x49, 0x46, 0x38, 0x37, 0x61], "GIF image data, version 87a"@)
    &&& standard_entry(s[9], 0, seq![0x47u8, 0x49, 0x46, 0x38, 0x39, 0x61], "GIF image data, version 89a"@)
    &&& standard_entry(s[10], 0, seq![0x49u8, 0x49, 0x2A, 0x00], "TIFF image data, little-endian"@)
    &&& standard_entry(s[11], 0, seq![0x49u8, 0x49, 0xBC], "Kodak Cineon image"@)
    &&& standard_entry(s[12], 0, seq![0x49u8, 0x54, 0x4F, 0x4C], "ITC (CMU WM) format"@)
    &&& standard_entry(s[13], 0, seq![0x4Du8, 0x4D, 0x00, 0x2A], "TIFF image data, big-endian"@)
    &&& standard_entry(s[14], 0, seq![0x52u8, 0x49, 0x46, 0x46], "RIFF container (AVI, WAV, WebP)"@)
    &&& standard_entry(s[15], 0, seq![0x53u8, 0x49, 0x4D, 0x50, 0x4C, 0x45], "FITS (Flexible Image Transport System)"@)
    &&& standard_entry(s[16], 0, seq![0x53u8, 0x56, 0x47, 0x20], "Scalable Vector Graphics (SVG)"@)
    &&& standard_entry(s[17], 0, seq![0x59u8, 0xA6, 0x6A, 0x95], "Sun Rasterfile"@)
    &&& standard_entry(s[18], 0, seq![0x67u8, 0x69, 0x6D, 0x70, 0x20, 0x78, 0x63, 0x66, 0x20], "GIMP image data"@)
    &&& standard_entry(s[19], 0, seq![0x89u8, 0x50, 0x4E, 0x47, 0x0D, 0x0A, 0x1A, 0x0A], "PNG image data, 8-bit depth"@)
    &&& standard_entry(s[20], 0, seq![0x8Au8, 0x4D, 0x4E, 0x47, 0x0D, 0x0A, 0x1A, 0x0A], "MNG, Multiple-image Network Graphics"@)
    &&& standard_entry(s[21], 0, seq![0x8Bu8, 0x4A, 0x4E, 0x47, 0x0D, 0x0A, 0x1A, 0x0A], "JNG, JPEG Network Graphics"@)
    &&& standard_entry(s[22], 0, seq![0xFFu8, 0xD8, 0xFF], "JPEG image data (various standards)"@)
    &&& standard_entry(s[23], 0, seq![0xFFu8, 0xD8, 0xFF, 0xDB], "JPEG image data, JFIF/raw"@)
    &&& standard_entry(s[24], 0, seq![0xFFu8, 0xD8, 0xFF, 0xE0, 0x00, 0x10, 0x4A, 0x46, 0x49, 0x46], "JPEG image data, JFIF standard 1.01"@)
    &&& standard_entry(s[25], 0, seq![0xFFu8, 0xD8, 0xFF, 0xE1], "JPEG image data, Exif standard"@)
    &&& standard_entry(s[26], 0, seq![0x00u8, 0x00, 0x00, 0x0C, 0x6A, 0x50, 0x20, 0x20, 0x0D, 0x0A], "JPEG 2000 image data"@)
}

/// The compressed- and archive-file entries of the standard table, indices 27 to 54,
/// each pinned to its offset, pattern bytes and description.
pub open spec fn standard_archive_entries(s: Seq<MagicEntry>) -> bool {
    &&& standard_entry(s[27], 0, seq![0x1Au8], "Zoo archive data"@)
    &&& standard_entry(s[28], 0, seq![0x1Fu8, 0x8B], "gzip compressed data"@)
    &&& standard_entry(s[29], 0, seq![0x1Fu8, 0x9D], "compress'd data (Lempel-Ziv)"@)
    &&& standard_entry(s[30], 0, seq![0x1Fu8, 0xA0], "compress'd data (LZH)"@)
    &&& standard_entry(s[31], 0, seq![0x21u8, 0x3C, 0x61, 0x72, 0x63, 0x68, 0x3E], "ar archive (Unix)"@)
    &&& standard_entry(s[32], 0, seq![0x21u8, 0x3C, 0x61, 0x72, 0x63, 0x68, 0x3E, 0x0A, 0x64, 0x65, 0x62, 0x69, 0x61, 0x6E, 0x2D, 0x62], "Debian binary package (.deb)"@)
    &&& standard_entry(s[33], 0, seq![0x28u8, 0xB5, 0x2F, 0xFD], "Zstandard compressed data"@)
    &&& standard_entry(s[34], 0, seq![0x30u8, 0x37, 0x30, 0x37, 0x30, 0x31], "cpio archive, new ASCII format"@)
    &&& standard_entry(s[35], 0, seq![0x30u8, 0x37, 0x30, 0x37, 0x30, 0x37], "cpio archive, old ASCII format"@)
    &&& standard_entry(s[36], 0, seq![0x37u8, 0x7A, 0xBC, 0xAF, 0x27, 0x1C], "7-zip archive data"@)
    &&& standard_entry(s[37], 0, seq![0x42u8, 0x5A, 0x68], "bzip2 compressed data"@)
    &&& standard_entry(s[38], 0, seq![0x4Du8, 0x53, 0x43, 0x46], "Microsoft Cabinet file data"@)
    &&& standard_entry(s[39], 0, seq![0x50u8, 0x4B, 0x03, 0x04], "Zip archive data (PKZIP)"@)
    &&& standard_entry(s[40], 0, seq![0x50u8, 0x4B, 0x05, 0x06], "Zip archive data (empty)"@)
    &&& standard_entry(s[41], 0, seq![0x50u8, 0x4B, 0x07, 0x08], "Zip archive data (spanned)"@)
    &&& standard_entry(s[42], 0, seq![0x52u8, 0x61, 0x72, 0x21, 0x1A, 0x07, 0x00], "RAR archive data, v1.50"@)
    &&& standard_entry(s[43], 0, seq![0x52u8, 0x61, 0x72, 0x21, 0x1A, 0x07, 0x01, 0x00], "RAR archive data, v5.0+"@)
    &&& standard_entry(s[44], 0, seq![0x53u8, 0x5A, 0x44, 0x44, 0x88, 0xF0, 0x27, 0x33], "Microsoft compressed file in LZX format"@)
    &&& standard_entry(s[45], 0, seq![0x63u8, 0x70, 0x69, 0x6F], "cpio archive"@)
    &&& standard_entry(s[46], 0, seq![0x78u8, 0x01], "zlib compressed data, no compression/low"@)
    &&& standard_entry(s[47], 0, seq![0x78u8, 0x5E], "zlib compressed data, normal compression"@)
    &&& standard_entry(s[48], 0, seq![0x78u8, 0x9C], "zlib compressed data, default compression"@)
    &&& standard_entry(s[49], 0, seq![0x78u8, 0xDA], "zlib compressed data, best compression"@)
    &&& standard_entry(s[50], 0, seq![0xEDu8, 0xAB, 0xEE, 0xDB], "RPM (Red Hat Package Manager) package"@)
    &&& standard_entry(s[51], 0, seq![0xFDu8, 0x37, 0x7A, 0x58, 0x5A, 0x00], "xz compressed data"@)
    &&& standard_entry(s[52], 0, seq![0x04u8, 0x22, 0x4D, 0x18], "LZ4 Frame format"@)
    &&& standard_entry(s[53], 257, seq![0x75u8, 0x73, 0x74, 0x61, 0x72, 0x00, 0x30, 0x30], "tar archive (POSIX ustar)"@)
    &&& standard_entry(s[54], 257, seq![0x75u8, 0x73, 0x74, 0x61, 0x72, 0x20, 0x20, 0x00], "tar archive (GNU)"@)
}

/// The executable- and system-file entries of the standard table, indices 55 to 68,
/// each pinned to its offset, pattern bytes and description.
pub open spec fn standard_executable_entries(s: Seq<MagicEntry>) -> bool {
    &&& standard_entry(s[55], 0, seq![0x23u8, 0x21], "Script file with shebang (e.g., #!/bin/bash)"@)
    &&& standard_entry(s[56], 0, seq![0x43u8, 0x72, 0x32, 0x34], "Google Chrome extension/packaged app (.crx)"@)
    &&& standard_entry(s[57], 0, seq![0x4Bu8, 0x44, 0x4D, 0x56], "VMDK (VMware virtual disk) file"@)
    &&& standard_entry(s[58], 0, seq![0x4Cu8, 0x00, 0x00, 0x00, 0x01, 0x14, 0x02, 0x00], "Windows Shortcut file (.lnk)"@)
    &&& standard_entry(s[59], 0, seq![0x4Du8, 0x5A], "DOS MZ executable, for MS-DOS, OS/2 or MS Windows"@)
    &&& standard_entry(s[60], 0, seq![0x50u8, 0x45, 0x00, 0x00], "PE32 executable (Windows)"@)
    &&& standard_entry(s[61], 0, seq![0x64u8, 0x65, 0x78, 0x0A, 0x30, 0x33, 0x35, 0x00], "Dalvik Executable format (.dex)"@)
    &&& standard_entry(s[62], 0, seq![0x7Fu8, 0x45, 0x4C, 0x46], "ELF executable or shared object, for Linux/Unix"@)
    &&& standard_entry(s[63], 0, seq![0xCAu8, 0xFE, 0xBA, 0xBE], "Java class file"@)
    &&& standard_entry(s[64], 0, seq![0xCEu8, 0xFA, 0xED, 0xFE], "Mach-O executable (32-bit, little-endian)"@)
    &&& standard_entry(s[65], 0, seq![0xCFu8, 0xFA, 0xED, 0xFE], "Mach-O executable (64-bit, little-endian)"@)
    &&& standard_entry(s[66], 0, seq![0xD0u8, 0xCF, 0x11, 0xE0, 0xA1, 0xB1, 0x1A, 0xE1], "Microsoft Office/Compound File Binary Format (doc, xls, ppt, msi, etc.)"@)
    &&& standard_entry(s[67], 0, seq![0xFEu8, 0xED, 0xFA, 0xCE], "Mach-O executable (32-bit, big-endian)"@)
    &&& standard_entry(s[68], 0, seq![0xFEu8, 0xED, 0xFA, 0xCF], "Mach-O executable (64-bit, big-endian)"@)
}

/// The document-format entries of the standard table, indices 69 to 74,
/// each pinned to its offset, pattern bytes and description.
pub open spec fn standard_document_entries(s: Seq<MagicEntry>) -> bool {
    &&& standard_entry(s[69], 0, seq![0x25u8, 0x21, 0x50, 0x53], "PostScript document"@)
    &&& standard_entry(s[70], 0, seq![0x25u8, 0x50, 0x44, 0x46], "PDF document"@)
    &&& standard_entry(s[71], 0, seq![0x3Cu8, 0x21, 0x44, 0x4F, 0x43, 0x54, 0x59, 0x50, 0x45, 0x20, 0x68, 0x74, 0x6D, 0x6C], "HTML document"@)
    &&& standard_entry(s[72], 0, seq![0x3Cu8, 0x3F, 0x78, 0x6D, 0x6C, 0x20], "XML document"@)
    &&& standard_entry(s[73], 0, seq![0x4Fu8, 0x70, 0x65, 0x6E, 0x44, 0x6F, 0x63, 0x75, 0x6D, 0x65, 0x6E, 0x74, 0x20, 0x54, 0x65, 0x78, 0x74], "OpenDocument Text (ODT)"@)
    &&& standard_entry(s[74], 0, seq![0x7Bu8, 0x5C, 0x72, 0x74, 0x66, 0x31], "Rich Text Format (RTF) data"@)
}

/// The audio- and video-file entries of the standard table, indices 75 to 96,
/// each pinned to its offset, pattern bytes and description.
pub open spec fn standard_media_entries(s: Seq<MagicEntry>) -> bool {
    &&& standard_entry(s[75], 0, seq![0x00u8, 0x00, 0x00, 0x14, 0x66, 0x74, 0x79, 0x70, 0x69, 0x73, 0x6F, 0x6D], "MP4 video file (ISO base media file format)"@)
    &&& standard_entry(s[76], 0, seq![0x00u8, 0x00, 0x00, 0x18, 0x66, 0x74, 0x79, 0x70, 0x33, 0x67], "3GPP multimedia file (.3gp)"@)
    &&& standard_entry(s[77], 0, seq![0x00u8, 0x00, 0x01, 0xB3], "MPEG-1 video"@)
    &&& standard_entry(s[78], 0, seq![0x00u8, 0x00, 0x01, 0xBA], "MPEG-PS (Program Stream)"@)
    &&& standard_entry(s[79], 0, seq![0x1Au8, 0x45, 0xDF, 0xA3], "Matroska (MKV) data container (WebM, etc.)"@)
    &&& standard_entry(s[80], 0, seq![0x2Eu8, 0x72, 0x61, 0xFD], "RealMedia file (.ra)"@)
    &&& standard_entry(s[81], 0, seq![0x2Eu8, 0x73, 0x6E, 0x64], "NeXT/Sun Audio file (.au)"@)
    &&& standard_entry(s[82], 0, seq![0x30u8, 0x26, 0xB2, 0x75, 0x8E, 0x66, 0xCF, 0x11, 0xA6, 0xD9, 0x00, 0xAA, 0x00, 0x62, 0xCE, 0x6C], "ASF/WMV/WMA file"@)
    &&& standard_entry(s[83], 0, seq![0x46u8, 0x4C, 0x56, 0x01], "FLV (Flash Video) data"@)
    &&& standard_entry(s[84], 0, seq![0x47u8], "MPEG-TS (Transport Stream)"@)
    &&& standard_entry(s[85], 0, seq![0x49u8, 0x44, 0x33], "MP3 audio with ID3v2 tag"@)
    &&& standard_entry(s[86], 0, seq![0x4Fu8, 0x67, 0x67, 0x53], "Ogg data container (Vorbis, Theora, etc.)"@)
    &&& standard_entry(s[87], 0, seq![0x4Du8, 0x54, 0x68, 0x64], "MIDI (Musical Instrument Digital Interface) data"@)
    &&& standard_entry(s[88], 0, seq![0x52u8, 0x49, 0x46, 0x58], "RIFX (big-endian) data container"@)
    &&& standard_entry(s[89], 0, seq![0x66u8, 0x4C, 0x61, 0x43], "FLAC (Free Lossless Audio Codec) data"@)
    &&& standard_entry(s[90], 0, seq![0xFFu8, 0xF1], "MPEG-4 AAC ADTS file"@)
    &&& standard_entry(s[91], 0, seq![0xFFu8, 0xF2], "MP3 audio file (MPEG ADTS, layer III, v1, no CRC)"@)
    &&& standard_entry(s[92], 0, seq![0xFFu8, 0xF3], "MP3 audio file (MPEG ADTS, layer III, v1, with CRC)"@)
    &&& standard_entry(s[93], 0, seq![0xFFu8, 0xFB], "MP3 audio file (no ID3 tag, MPEG-1 Layer 3)"@)
    &&& standard_entry(s[94], 8, seq![0x41u8, 0x56, 0x49, 0x20], "AVI video file (within RIFF)"@)
    &&& standard_entry(s[95], 8, seq![0x57u8, 0x41, 0x56, 0x45], "WAVE audio file (within RIFF/RIFX)"@)
    &&& standard_entry(s[96], 0, seq![0x6Du8, 0x6F, 0x6F, 0x76], "MOV video file (QuickTime Movie) 'moov' atom"@)
}

/// The database-file entries of the standard table, indices 97 to 99,
/// each pinned to its offset, pattern bytes and description.
pub open spec fn standard_database_entries(s: Seq<MagicEntry>) -> bool {
    &&& standard_entry(s[97], 0, seq![0x00u8, 0x01, 0x00, 0x00, 0x53, 0x74, 0x61, 0x6E, 0x64, 0x61, 0x72, 0x64, 0x20, 0x41, 0x43, 0x45, 0x20, 0x44, 0x42], "Microsoft Access 2007+ Database (.accdb)"@)
    &&& standard_entry(s[98], 0, seq![0x00u8, 0x01, 0x00, 0x00, 0x53, 0x74, 0x61, 0x6E, 0x64, 0x61, 0x72, 0x64, 0x20, 0x4A, 0x65, 0x74, 0x20, 0x44, 0x42], "Microsoft Access 2000/2003 Database (.mdb)"@)
    &&& standard_entry(s[99], 0, seq![0x53u8, 0x51, 0x4C, 0x69, 0x74, 0x65, 0x20, 0x66, 0x6F, 0x72, 0x6D, 0x61, 0x74, 0x20, 0x33, 0x00], "SQLite 3 database file"@)
}

/// The font-file entries of the standard table, indices 100 to 104,
/// each pinned to its offset, pattern bytes and description.
pub open spec fn standard_font_entries(s: Seq<MagicEntry>) -> bool {
    &&& standard_entry(s[100], 0, seq![0x00u8, 0x01, 0x00, 0x00, 0x00], "TrueType Font file (.ttf)"@)
    &&& standard_entry(s[101], 0, seq![0x4Fu8, 0x54, 0x54, 0x4F], "OpenType Font file (.otf)"@)
    &&& standard_entry(s[102], 0, seq![0x74u8, 0x74, 0x63, 0x66], "TrueType Font Collection (.ttc)"@)
    &&& standard_entry(s[103], 0, seq![0x77u8, 0x4F, 0x46, 0x32], "Web Open Font Format 2.0 (.woff2)"@)
    &&& standard_entry(s[104], 0, seq![0x77u8, 0x4F, 0x46, 0x46], "Web Open Font Format 1.0 (.woff)"@)
}

/// The disk-image and filesystem entries of the standard table, indices 105 to 112,
/// each pinned to its offset, pattern bytes and description.
pub open spec fn standard_filesystem_entries(s: Seq<MagicEntry>) -> bool {
    &&& standard_entry(s[105], 0, seq![0x43u8, 0x44, 0x30, 0x30, 0x31], "ISO-9660 CD/DVD image (.iso)"@)
    &&& standard_entry(s[106], 1024, seq![0x48u8, 0x2B, 0x00, 0x00], "HFS+ filesystem data"@)
    &&& standard_entry(s[107], 3, seq![0x4Eu8, 0x54, 0x46, 0x53, 0x20, 0x20, 0x20, 0x20], "NTFS filesystem data"@)
    &&& standard_entry(s[108], 1080, seq![0x53u8, 0xEF], "ext2/ext3/ext4 filesystem data"@)
    &&& standard_entry(s[109], 0, seq![0x72u8, 0x65, 0x69, 0x73, 0x65, 0x72], "ReiserFS filesystem data"@)
    &&& standard_entry(s[110], 0, seq![0xEBu8, 0x3C, 0x90], "FAT12/FAT16 filesystem data"@)
    &&& standard_entry(s[111], 0, seq![0xEBu8, 0x52, 0x90], "FAT32 filesystem data"@)
    &&& standard_entry(s[112], 0, seq![0xEBu8, 0x76, 0x90], "exFAT filesystem data"@)
}

/// The miscellaneous entries of the standard table, indices 113 to 121,
/// each pinned to its offset, pattern bytes and description.
pub open spec fn standard_misc_entries(s: Seq<MagicEntry>) -> bool {
    &&& standard_entry(s[113], 0, seq![0x21u8, 0x42, 0x44, 0x4E], "Outlook Personal Storage Table (.pst)"@)
    &&& standard_entry(s[114], 0, seq![0x30u8, 0x82], "DER encoded security certificate"@)
    &&& standard_entry(s[115], 128, seq![0x44u8, 0x43, 0x4D, 0x49], "DICOM Medical file format"@)
    &&& standard_entry(s[116], 0, seq![0x47u8, 0x4F, 0x44, 0x4F, 0x54, 0x45, 0x4E, 0x43], "Godot Engine encrypted script (.gde)"@)
    &&& standard_entry(s[117], 0, seq![0x50u8, 0x4D, 0x4F, 0x43, 0x43, 0x4D, 0x4F, 0x43], "Windows Performance Monitor counter file (.pmc)"@)
    &&& standard_entry(s[118], 0, seq![0x55u8, 0x6E, 0x69, 0x74, 0x79, 0x46, 0x53], "Unity game data archive (UnityFS)"@)
    &&& standard_entry(s[119], 0, seq![0x7bu8, 0x0d, 0x0a, 0x20, 0x20, 0x22], "JSON file"@)
    &&& standard_entry(s[120], 0, seq![0x2Du8, 0x2D, 0x2D, 0x2D, 0x2D, 0x42, 0x45, 0x47, 0x49, 0x4E, 0x20, 0x43, 0x45, 0x52, 0x54, 0x49, 0x46, 0x49, 0x43, 0x41, 0x54, 0x45, 0x2D, 0x2D, 0x2D, 0x2D, 0x2D], "PEM security certificate"@)
    &&& standard_entry(s[121], 4, seq![0x72u8, 0x65, 0x67, 0x66], "Windows Registry hive file"@)
}

/// `s` is exactly the standard signature table: 122 entries, each with its
/// offset, pattern bytes and description pinned.
pub open spec fn is_standard_table(s: Seq<MagicEntry>) -> bool {
    &&& s.len() == 122
    &&& standard_image_entries(s)
    &&& standard_archive_entries(s)
    &&& standard_executable_entries(s)
    &&& standard_document_entries(s)
    &&& standard_media_entries(s)
    &&& standard_database_entries(s)
    &&& standard_font_entries(s)
    &&& standard_filesystem_entries(s)
    &&& standard_misc_entries(s)
}

/// The standard table of known magic-number signatures, in declaration
/// order. Every entry is pinned by [`is_standard_table`]; every pattern is
/// non-empty, so building a catalog from this table always succeeds.
#[verifier::rlimit(50)]
pub fn get_magic_numbers() -> (r: Vec<MagicEntry>)
    ensures
        r@.len() == 122,
        catalog_valid(r@),
        is_standard_table(r@),
{
    let r: Vec<MagicEntry> = vec![

        // --- Image Files ---
        MagicEntry { offset: 0, magic: vec![0x00, 0x00, 0x01, 0x00], description: "ICO icon, Windows icon" },
        MagicEntry { offset: 0, magic: vec![0x00, 0x00, 0x02, 0x00], description: "CUR icon, Windows cursor" },
        MagicEntry { offset: 0, magic: vec![0x01, 0x00, 0x09, 0x00], description: "Windows Metafile (WMF)" },
        MagicEntry { offset: 0, magic: vec![0x20, 0x00, 0x00, 0x00, 0x4A, 0x46, 0x49, 0x46, 0x58, 0x58, 0x00], description: "JPEG File Interchange Format with extension data" },
        MagicEntry { offset: 0, magic: vec![0x38, 0x42, 0x50, 0x53], description: "PSD image, Adobe Photoshop" },
        MagicEntry { offset: 0, magic: vec![0x41, 0x43, 0x31, 0x30], description: "AutoCAD Drawing file (DWG)" },
        MagicEntry { offset: 0, magic: vec![0x41, 0x49], description: "Adobe Illustrator Artwork" },
        MagicEntry { offset: 0, magic: vec![0x42, 0x4D], description: "BMP image, a bitmap format" },
        MagicEntry { offset: 0, magic: vec![0x47, 0x49, 0x46, 0x38, 0x37, 0x61], description: "GIF image data, version 87a" },
        MagicEntry { offset: 0, magic: vec![0x47, 0x49, 0x46, 0x38, 0x39, 0x61], description: "GIF image data, version 89a" },
        MagicEntry { offset: 0, magic: vec![0x49, 0x49, 0x2A, 0x00], description: "TIFF image data, little-endian" },
        MagicEntry { offset: 0, magic: vec![0x49, 0x49, 0xBC], description: "Kodak Cineon image" },
        MagicEntry { offset: 0, magic: vec![0x49, 0x54, 0x4F, 0x4C], description: "ITC (CMU WM) format" },
        MagicEntry { offset: 0, magic: vec![0x4D, 0x4D, 0x00, 0x2A], description: "TIFF image data, big-endian" },
        MagicEntry { offset: 0, magic: vec![0x52, 0x49, 0x46, 0x46], description: "RIFF container (AVI, WAV, WebP)" },
        MagicEntry { offset: 0, magic: vec![0x53, 0x49, 0x4D, 0x50, 0x4C, 0x45], description: "FITS (Flexible Image Transport System)" },
        MagicEntry { offset: 0, magic: vec![0x53, 0x56, 0x47, 0x20], description: "Scalable Vector Graphics (SVG)" },
        MagicEntry { offset: 0, magic: vec![0x59, 0xA6, 0x6A, 0x95], description: "Sun Rasterfile" },
        MagicEntry { offset: 0, magic: vec![0x67, 0x69, 0x6D, 0x70, 0x20, 0x78, 0x63, 0x66, 0x20], description: "GIMP image data" },
        MagicEntry { offset: 0, magic: vec![0x89, 0x50, 0x4E, 0x47, 0x0D, 0x0A, 0x1A, 0x0A], description: "PNG image data, 8-bit depth" },
        MagicEntry { offset: 0, magic: vec![0x8A, 0x4D, 0x4E, 0x47, 0x0D, 0x0A, 0x1A, 0x0A], description: "MNG, Multiple-image Network Graphics" },
        MagicEntry { offset: 0, magic: vec![0x8B, 0x4A, 0x4E, 0x47, 0x0D, 0x0A, 0x1A, 0x0A], description: "JNG, JPEG Network Graphics" },
        MagicEntry { offset: 0, magic: vec![0xFF, 0xD8, 0xFF], description: "JPEG image data (various standards)" },
        MagicEntry { offset: 0, magic: vec![0xFF, 0xD8, 0xFF, 0xDB], description: "JPEG image data, JFIF/raw" },
        MagicEntry { offset: 0, magic: vec![0xFF, 0xD8, 0xFF, 0xE0, 0x00, 0x10, 0x4A, 0x46, 0x49, 0x46], description: "JPEG image data, JFIF standard 1.01" },
        MagicEntry { offset: 0, magic: vec![0xFF, 0xD8, 0xFF, 0xE1], description: "JPEG image data, Exif standard" },
        MagicEntry { offset: 0, magic: vec![0x00, 0x00, 0x00, 0x0C, 0x6A, 0x50, 0x20, 0x20, 0x0D, 0x0A], description: "JPEG 2000 image data" },

        // --- Compressed and Archive Files ---
        MagicEntry { offset: 0, magic: vec![0x1A], description: "Zoo archive data" },
        MagicEntry { offset: 0, magic: vec![0x1F, 0x8B], description: "gzip compressed data" },
        MagicEntry { offset: 0, magic: vec![0x1F, 0x9D], description: "compress'd data (Lempel-Ziv)" },
        MagicEntry { offset: 0, magic: vec![0x1F, 0xA0], description: "compress'd data (LZH)" },
        MagicEntry { offset: 0, magic: vec![0x21, 0x3C, 0x61, 0x72, 0x63, 0x68, 0x3E], description: "ar archive (Unix)" },
        MagicEntry { offset: 0, magic: vec![0x21, 0x3C, 0x61, 0x72, 0x63, 0x68, 0x3E, 0x0A, 0x64, 0x65, 0x62, 0x69, 0x61, 0x6E, 0x2D, 0x62], description: "Debian binary package (.deb)" },
        MagicEntry { offset: 0, magic: vec![0x28, 0xB5, 0x2F, 0xFD], description: "Zstandard compressed data" },
        MagicEntry { offset: 0, magic: vec![0x30, 0x37, 0x30, 0x37, 0x30, 0x31], description: "cpio archive, new ASCII format" },
        MagicEntry { offset: 0, magic: vec![0x30, 0x37, 0x30, 0x37, 0x30, 0x37], description: "cpio archive, old ASCII format" },
        MagicEntry { offset: 0, magic: vec![0x37, 0x7A, 0xBC, 0xAF, 0x27, 0x1C], description: "7-zip archive data" },
        MagicEntry { offset: 0, magic: vec![0x42, 0x5A, 0x68], description: "bzip2 compressed data" },
        MagicEntry { offset: 0, magic: vec![0x4D, 0x53, 0x43, 0x46], description: "Microsoft Cabinet file data" },
        MagicEntry { offset: 0, magic: vec![0x50, 0x4B, 0x03, 0x04], description: "Zip archive data (PKZIP)" },
        MagicEntry { offset: 0, magic: vec![0x50, 0x4B, 0x05, 0x06], description: "Zip archive data (empty)" },
        MagicEntry { offset: 0, magic: vec![0x50, 0x4B, 0x07, 0x08], description: "Zip archive data (spanned)" },
        MagicEntry { offset: 0, magic: vec![0x52, 0x61, 0x72, 0x21, 0x1A, 0x07, 0x00], description: "RAR archive data, v1.50" },
        MagicEntry { offset: 0, magic: vec![0x52, 0x61, 0x72, 0x21, 0x1A, 0x07, 0x01, 0x00], description: "RAR archive data, v5.0+" },
        MagicEntry { offset: 0, magic: vec![0x53, 0x5A, 0x44, 0x44, 0x88, 0xF0, 0x27, 0x33], description: "Microsoft compressed file in LZX format" },
        MagicEntry { offset: 0, magic: vec![0x63, 0x70, 0x69, 0x6F], description: "cpio archive" },
        MagicEntry { offset: 0, magic: vec![0x78, 0x01], description: "zlib compressed data, no compression/low" },
        MagicEntry { offset: 0, magic: vec![0x78, 0x5E], description: "zlib compressed data, normal compression" },
        MagicEntry { offset: 0, magic: vec![0x78, 0x9C], description: "zlib compressed data, default compression" },
        MagicEntry { offset: 0, magic: vec![0x78, 0xDA], description: "zlib compressed data, best compression" },
        MagicEntry { offset: 0, magic: vec![0xED, 0xAB, 0xEE, 0xDB], description: "RPM (Red Hat Package Manager) package" },
        MagicEntry { offset: 0, magic: vec![0xFD, 0x37, 0x7A, 0x58, 0x5A, 0x00], description: "xz compressed data" },
        MagicEntry { offset: 0, magic: vec![0x04, 0x22, 0x4D, 0x18], description: "LZ4 Frame format" },
        MagicEntry { offset: 257, magic: vec![0x75, 0x73, 0x74, 0x61, 0x72, 0x00, 0x30, 0x30], description: "tar archive (POSIX ustar)" },
        MagicEntry { offset: 257, magic: vec![0x75, 0x73, 0x74, 0x61, 0x72, 0x20, 0x20, 0x00], description: "tar archive (GNU)" },

        // --- Executable and System Files ---
        MagicEntry { offset: 0, magic: vec![0x23, 0x21], description: "Script file with shebang (e.g., #!/bin/bash)" },
        MagicEntry { offset: 0, magic: vec![0x43, 0x72, 0x32, 0x34], description: "Google Chrome extension/packaged app (.crx)" },
        MagicEntry { offset: 0, magic: vec![0x4B, 0x44, 0x4D, 0x56], description: "VMDK (VMware virtual disk) file" },
        MagicEntry { offset: 0, magic: vec![0x4C, 0x00, 0x00, 0x00, 0x01, 0x14, 0x02, 0x00], description: "Windows Shortcut file (.lnk)" },
        MagicEntry { offset: 0, magic: vec![0x4D, 0x5A], description: "DOS MZ executable, for MS-DOS, OS/2 or MS Windows" },
        MagicEntry { offset: 0, magic: vec![0x50, 0x45, 0x00, 0x00], description: "PE32 executable (Windows)" },
        MagicEntry { offset: 0, magic: vec![0x64, 0x65, 0x78, 0x0A, 0x30, 0x33, 0x35, 0x00], description: "Dalvik Executable format (.dex)" },
        MagicEntry { offset: 0, magic: vec![0x7F, 0x45, 0x4C, 0x46], description: "ELF executable or shared object, for Linux/Unix" },
        MagicEntry { offset: 0, magic: vec![0xCA, 0xFE, 0xBA, 0xBE], description: "Java class file" },
        MagicEntry { offset: 0, magic: vec![0xCE, 0xFA, 0xED, 0xFE], description: "Mach-O executable (32-bit, little-endian)" },
        MagicEntry { offset: 0, magic: vec![0xCF, 0xFA, 0xED, 0xFE], description: "Mach-O executable (64-bit, little-endian)" },
        MagicEntry { offset: 0, magic: vec![0xD0, 0xCF, 0x11, 0xE0, 0xA1, 0xB1, 0x1A, 0xE1], description: "Microsoft Office/Compound File Binary Format (doc, xls, ppt, msi, etc.)" },
        MagicEntry { offset: 0, magic: vec![0xFE, 0xED, 0xFA, 0xCE], description: "Mach-O executable (32-bit, big-endian)" },
        MagicEntry { offset: 0, magic: vec![0xFE, 0xED, 0xFA, 0xCF], description: "Mach-O executable (64-bit, big-endian)" },

        // --- Document Formats ---
        MagicEntry { offset: 0, magic: vec![0x25, 0x21, 0x50, 0x53], description: "PostScript document" },
        MagicEntry { offset: 0, magic: vec![0x25, 0x50, 0x44, 0x46], description: "PDF document" },
        MagicEntry { offset: 0, magic: vec![0x3C, 0x21, 0x44, 0x4F, 0x43, 0x54, 0x59, 0x50, 0x45, 0x20, 0x68, 0x74, 0x6D, 0x6C], description: "HTML document" },
        MagicEntry { offset: 0, magic: vec![0x3C, 0x3F, 0x78, 0x6D, 0x6C, 0x20], description: "XML document" },
        MagicEntry { offset: 0, magic: vec![0x4F, 0x70, 0x65, 0x6E, 0x44, 0x6F, 0x63, 0x75, 0x6D, 0x65, 0x6E, 0x74, 0x20, 0x54, 0x65, 0x78, 0x74], description: "OpenDocument Text (ODT)" },
        MagicEntry { offset: 0, magic: vec![0x7B, 0x5C, 0x72, 0x74, 0x66, 0x31], description: "Rich Text Format (RTF) data" },

        // --- Audio and Video Files ---
        MagicEntry { offset: 0, magic: vec![0x00, 0x00, 0x00, 0x14, 0x66, 0x74, 0x79, 0x70, 0x69, 0x73, 0x6F, 0x6D], description: "MP4 video file (ISO base media file format)" },
        MagicEntry { offset: 0, magic: vec![0x00, 0x00, 0x00, 0x18, 0x66, 0x74, 0x79, 0x70, 0x33, 0x67], description: "3GPP multimedia file (.3gp)" },
        MagicEntry { offset: 0, magic: vec![0x00, 0x00, 0x01, 0xB3], description: "MPEG-1 video" },
        MagicEntry { offset: 0, magic: vec![0x00, 0x00, 0x01, 0xBA], description: "MPEG-PS (Program Stream)" },
        MagicEntry { offset: 0, magic: vec![0x1A, 0x45, 0xDF, 0xA3], description: "Matroska (MKV) data container (WebM, etc.)" },
        MagicEntry { offset: 0, magic: vec![0x2E, 0x72, 0x61, 0xFD], description: "RealMedia file (.ra)" },
        MagicEntry { offset: 0, magic: vec![0x2E, 0x73, 0x6E, 0x64], description: "NeXT/Sun Audio file (.au)" },
        MagicEntry { offset: 0, magic: vec![0x30, 0x26, 0xB2, 0x75, 0x8E, 0x66, 0xCF, 0x11, 0xA6, 0xD9, 0x00, 0xAA, 0x00, 0x62, 0xCE, 0x6C], description: "ASF/WMV/WMA file" },
        MagicEntry { offset: 0, magic: vec![0x46, 0x4C, 0x56, 0x01], description: "FLV (Flash Video) data" },
        MagicEntry { offset: 0, magic: vec![0x47], description: "MPEG-TS (Transport Stream)" },
        MagicEntry { offset: 0, magic: vec![0x49, 0x44, 0x33], description: "MP3 audio with ID3v2 tag" },
        MagicEntry { offset: 0, magic: vec![0x4F, 0x67, 0x67, 0x53], description: "Ogg data container (Vorbis, Theora, etc.)" },
        MagicEntry { offset: 0, magic: vec![0x4D, 0x54, 0x68, 0x64], description: "MIDI (Musical Instrument Digital Interface) data" },
        MagicEntry { offset: 0, magic: vec![0x52, 0x49, 0x46, 0x58], description: "RIFX (big-endian) data container" },
        MagicEntry { offset: 0, magic: vec![0x66, 0x4C, 0x61, 0x43], description: "FLAC (Free Lossless Audio Codec) data" },
        MagicEntry { offset: 0, magic: vec![0xFF, 0xF1], description: "MPEG-4 AAC ADTS file" },
        MagicEntry { offset: 0, magic: vec![0xFF, 0xF2], description: "MP3 audio file (MPEG ADTS, layer III, v1, no CRC)" },
        MagicEntry { offset: 0, magic: vec![0xFF, 0xF3], description: "MP3 audio file (MPEG ADTS, layer III, v1, with CRC)" },
        MagicEntry { offset: 0, magic: vec![0xFF, 0xFB], description: "MP3 audio file (no ID3 tag, MPEG-1 Layer 3)" },
        MagicEntry { offset: 8, magic: vec![0x41, 0x56, 0x49, 0x20], description: "AVI video file (within RIFF)" },
        MagicEntry { offset: 8, magic: vec![0x57, 0x41, 0x56, 0x45], description: "WAVE audio file (within RIFF/RIFX)" },
        MagicEntry { offset: 0, magic: vec![0x6D, 0x6F, 0x6F, 0x76], description: "MOV video file (QuickTime Movie) 'moov' atom" },

        // --- Database Files ---
        MagicEntry { offset: 0, magic: vec![0x00, 0x01, 0x00, 0x00, 0x53, 0x74, 0x61, 0x6E, 0x64, 0x61, 0x72, 0x64, 0x20, 0x41, 0x43, 0x45, 0x20, 0x44, 0x42], description: "Microsoft Access 2007+ Database (.accdb)" },
        MagicEntry { offset: 0, magic: vec![0x00, 0x01, 0x00, 0x00, 0x53, 0x74, 0x61, 0x6E, 0x64, 0x61, 0x72, 0x64, 0x20, 0x4A, 0x65, 0x74, 0x20, 0x44, 0x42], description: "Microsoft Access 2000/2003 Database (.mdb)" },
        MagicEntry { offset: 0, magic: vec![0x53, 0x51, 0x4C, 0x69, 0x74, 0x65, 0x20, 0x66, 0x6F, 0x72, 0x6D, 0x61, 0x74, 0x20, 0x33, 0x00], description: "SQLite 3 database file" },

        // --- Font Files ---
        MagicEntry { offset: 0, magic: vec![0x00, 0x01, 0x00, 0x00, 0x00], description: "TrueType Font file (.ttf)" },
        MagicEntry { offset: 0, magic: vec![0x4F, 0x54, 0x54, 0x4F], description: "OpenType Font file (.otf)" },
        MagicEntry { offset: 0, magic: vec![0x74, 0x74, 0x63, 0x66], description: "TrueType Font Collection (.ttc)" },
        MagicEntry { offset: 0, magic: vec![0x77, 0x4F, 0x46, 0x32], description: "Web Open Font Format 2.0 (.woff2)" },
        MagicEntry { offset: 0, magic: vec![0x77, 0x4F, 0x46, 0x46], description: "Web Open Font Format 1.0 (.woff)" },

        // --- Disk Images and Filesystems ---
        MagicEntry { offset: 0, magic: vec![0x43, 0x44, 0x30, 0x30, 0x31], description: "ISO-9660 CD/DVD image (.iso)" },
        MagicEntry { offset: 1024, magic: vec![0x48, 0x2B, 0x00, 0x00], description: "HFS+ filesystem data" },
        MagicEntry { offset: 3, magic: vec![0x4E, 0x54, 0x46, 0x53, 0x20, 0x20, 0x20, 0x20], description: "NTFS filesystem data" },
        MagicEntry { offset: 1080, magic: vec![0x53, 0xEF], description: "ext2/ext3/ext4 filesystem data" },
        MagicEntry { offset: 0, magic: vec![0x72, 0x65, 0x69, 0x73, 0x65, 0x72], description: "ReiserFS filesystem data" },
        MagicEntry { offset: 0, magic: vec![0xEB, 0x3C, 0x90], description: "FAT12/FAT16 filesystem data" },
        MagicEntry { offset: 0, magic: vec![0xEB, 0x52, 0x90], description: "FAT32 filesystem data" },
        MagicEntry { offset: 0, magic: vec![0xEB, 0x76, 0x90], description: "exFAT filesystem data" },

        // --- Miscellaneous & Less Common ---
        MagicEntry { offset: 0, magic: vec![0x21, 0x42, 0x44, 0x4E], description: "Outlook Personal Storage Table (.pst)" },
        MagicEntry { offset: 0, magic: vec![0x30, 0x82], description: "DER encoded security certificate" },
        MagicEntry { offset: 128, magic: vec![0x44, 0x43, 0x4D, 0x49], description: "DICOM Medical file format" },
        MagicEntry { offset: 0, magic: vec![0x47, 0x4F, 0x44, 0x4F, 0x54, 0x45, 0x4E, 0x43], description: "Godot Engine encrypted script (.gde)" },
        MagicEntry { offset: 0, magic: vec![0x50, 0x4D, 0x4F, 0x43, 0x43, 0x4D, 0x4F, 0x43], description: "Windows Performance Monitor counter file (.pmc)" },
        MagicEntry { offset: 0, magic: vec![0x55, 0x6E, 0x69, 0x74, 0x79, 0x46, 0x53], description: "Unity game data archive (UnityFS)" },
        MagicEntry { offset: 0, magic: vec![0x7b, 0x0d, 0x0a, 0x20, 0x20, 0x22], description: "JSON file" },
        MagicEntry { offset: 0, magic: vec![0x2D, 0x2D, 0x2D, 0x2D, 0x2D, 0x42, 0x45, 0x47, 0x49, 0x4E, 0x20, 0x43, 0x45, 0x52, 0x54, 0x49, 0x46, 0x49, 0x43, 0x41, 0x54, 0x45, 0x2D, 0x2D, 0x2D, 0x2D, 0x2D], description: "PEM security certificate" },
        MagicEntry { offset: 4, magic: vec![0x72, 0x65, 0x67, 0x66], description: "Windows Registry hive file" },
    ];
    proof {
        // the two one-byte patterns need extensional equality on their views
        assert(r@[27].magic@ =~= seq![0x1Au8]);
        assert(r@[84].magic@ =~= seq![0x47u8]);
        assert(standard_image_entries(r@));
        assert(standard_archive_entries(r@));
        assert(standard_executable_entries(r@));
        assert(standard_document_entries(r@));
        assert(standard_media_entries(r@));
        assert(standard_database_entries(r@));
        assert(standard_font_entries(r@));
        assert(standard_filesystem_entries(r@));
        assert(standard_misc_entries(r@));
    }
    r
}

} // verus!

//! The pinned AMD root key certificates, one per generation.
use crate::generation::ProcessorGeneration;
use vstd::prelude::*;

verus! {

/// The AMD root key (ARK) certificate for Milan, DER encoded.
pub const MILAN_ARK: [u8; 1639] = [
    0x30, 0x82, 0x06, 0x63, 0x30, 0x82, 0x04, 0x12, 0xa0, 0x03, 0x02, 0x01, 0x02, 0x02, 0x03, 0x01,
    0x00, 0x00, 0x30, 0x46, 0x06, 0x09, 0x2a, 0x86, 0x48, 0x86, 0xf7, 0x0d, 0x01, 0x01, 0x0a, 0x30,
    0x39, 0xa0, 0x0f, 0x30, 0x0d, 0x06, 0x09, 0x60, 0x86, 0x48, 0x01, 0x65, 0x03, 0x04, 0x02, 0x02,
    0x05, 0x00, 0xa1, 0x1c, 0x30, 0x1a, 0x06, 0x09, 0x2a, 0x86, 0x48, 0x86, 0xf7, 0x0d, 0x01, 0x01,
    0x08, 0x30, 0x0d, 0x06, 0x09, 0x60, 0x86, 0x48, 0x01, 0x65, 0x03, 0x04, 0x02, 0x02, 0x05, 0x00,
    0xa2, 0x03, 0x02, 0x01, 0x30, 0xa3, 0x03, 0x02, 0x01, 0x01, 0x30, 0x7b, 0x31, 0x14, 0x30, 0x12,
    0x06, 0x03, 0x55, 0x04, 0x0b, 0x0c, 0x0b, 0x45, 0x6e, 0x67, 0x69, 0x6e, 0x65, 0x65, 0x72, 0x69,
    0x6e, 0x67, 0x31, 0x0b, 0x30, 0x09, 0x06, 0x03, 0x55, 0x04, 0x06, 0x13, 0x02, 0x55, 0x53, 0x31,
    0x14, 0x30, 0x12, 0x06, 0x03, 0x55, 0x04, 0x07, 0x0c, 0x0b, 0x53, 0x61, 0x6e, 0x74, 0x61, 0x20,
    0x43, 0x6c, 0x61, 0x72, 0x61, 0x31, 0x0b, 0x30, 0x09, 0x06, 0x03, 0x55, 0x04, 0x08, 0x0c, 0x02,
    0x43, 0x41, 0x31, 0x1f, 0x30, 0x1d, 0x06, 0x03, 0x55, 0x04, 0x0a, 0x0c, 0x16, 0x41, 0x64, 0x76,
    0x61, 0x6e, 0x63, 0x65, 0x64, 0x20, 0x4d, 0x69, 0x63, 0x72, 0x6f, 0x20, 0x44, 0x65, 0x76, 0x69,
    0x63, 0x65, 0x73, 0x31, 0x12, 0x30, 0x10, 0x06, 0x03, 0x55, 0x04, 0x03, 0x0c, 0x09, 0x41, 0x52,
    0x4b, 0x2d, 0x4d, 0x69, 0x6c, 0x61, 0x6e, 0x30, 0x1e, 0x17, 0x0d, 0x32, 0x30, 0x31, 0x30, 0x32,
    0x32, 0x31, 0x37, 0x32, 0x33, 0x30, 0x35, 0x5a, 0x17, 0x0d, 0x34, 0x35, 0x31, 0x30, 0x32, 0x32,
    0x31, 0x37, 0x32, 0x33, 0x30, 0x35, 0x5a, 0x30, 0x7b, 0x31, 0x14, 0x30, 0x12, 0x06, 0x03, 0x55,
    0x04, 0x0b, 0x0c, 0x0b, 0x45, 0x6e, 0x67, 0x69, 0x6e, 0x65, 0x65, 0x72, 0x69, 0x6e, 0x67, 0x31,
    0x0b, 0x30, 0x09, 0x06, 0x03, 0x55, 0x04, 0x06, 0x13, 0x02, 0x55, 0x53, 0x31, 0x14, 0x30, 0x12,
    0x06, 0x03, 0x55, 0x04, 0x07, 0x0c, 0x0b, 0x53, 0x61, 0x6e, 0x74, 0x61, 0x20, 0x43, 0x6c, 0x61,
    0x72, 0x61, 0x31, 0x0b, 0x30, 0x09, 0x06, 0x03, 0x55, 0x04, 0x08, 0x0c, 0x02, 0x43, 0x41, 0x31,
    0x1f, 0x30, 0x1d, 0x06, 0x03, 0x55, 0x04, 0x0a, 0x0c, 0x16, 0x41, 0x64, 0x76, 0x61, 0x6e, 0x63,
    0x65, 0x64, 0x20, 0x4d, 0x69, 0x63, 0x72, 0x6f, 0x20, 0x44, 0x65, 0x76, 0x69, 0x63, 0x65, 0x73,
    0x31, 0x12, 0x30, 0x10, 0x06, 0x03, 0x55, 0x04, 0x03, 0x0c, 0x09, 0x41, 0x52, 0x4b, 0x2d, 0x4d,
    0x69, 0x6c, 0x61, 0x6e, 0x30, 0x82, 0x02, 0x22, 0x30, 0x0d, 0x06, 0x09, 0x2a, 0x86, 0x48, 0x86,
    0xf7, 0x0d, 0x01, 0x01, 0x01, 0x05, 0x00, 0x03, 0x82, 0x02, 0x0f, 0x00, 0x30, 0x82, 0x02, 0x0a,
    0x02, 0x82, 0x02, 0x01, 0x00, 0xd0, 0xb7, 0x79, 0xd9, 0x12, 0x4e, 0x75, 0xe8, 0x89, 0x96, 0xa2,
    0xb6, 0x25, 0xdb, 0x15, 0x98, 0x3e, 0xc5, 0x92, 0xdb, 0xa8, 0xb5, 0x6c, 0x17, 0xd5, 0xf3, 0x60,
    0x5b, 0x8d, 0x57, 0x63, 0xd5, 0xf3, 0xd4, 0x71, 0x21, 0x49, 0x49, 0xa1, 0x2f, 0x3f, 0x42, 0xbb,
    0xd0, 0xc7, 0x46, 0x5b, 0xe0, 0x25, 0x23, 0x71, 0x6d, 0xe6, 0x18, 0xb2, 0x72, 0x5f, 0xbf, 0x28,
    0xf1, 0xd4, 0xc7, 0xd4, 0xd1, 0x5e, 0x6d, 0x90, 0xa8, 0x94, 0xd4, 0x47, 0xac, 0x34, 0x5b, 0x5a,
    0xd6, 0x44, 0xc0, 0xd2, 0xcc, 0xcd, 0x8a, 0xc7, 0x58, 0x73, 0xd8, 0xac, 0xaa, 0x4e, 0xe6, 0x5d,
    0x3e, 0x7e, 0x29, 0xf1, 0x91, 0x6d, 0xf7, 0x38, 0x57, 0xff, 0x73, 0x44, 0x87, 0x04, 0xf2, 0x39,
    0x47, 0x37, 0xad, 0x52, 0xd6, 0x3b, 0xbc, 0x5f, 0xdd, 0xfe, 0xe9, 0xdc, 0x43, 0x52, 0xb1, 0xb6,
    0x4b, 0x3c, 0x6a, 0x27, 0x80, 0x61, 0xab, 0x26, 0x26, 0x50, 0x3a, 0xee, 0x3d, 0x72, 0x52, 0x5f,
    0x8b, 0xd4, 0x73, 0x4d, 0x4f, 0xee, 0x3f, 0x7c, 0x32, 0x9a, 0x8e, 0x4b, 0xde, 0x6b, 0x39, 0x17,
    0x46, 0x1d, 0xe2, 0x39, 0xd8, 0xd6, 0xb3, 0xe6, 0x6d, 0x81, 0xf8, 0xef, 0xaf, 0x8e, 0xc0, 0xb4,
    0xeb, 0x47, 0x77, 0xee, 0x36, 0x3d, 0x2c, 0x57, 0xae, 0x38, 0xfe, 0x0c, 0x7a, 0xb8, 0xbc, 0xaa,
    0x07, 0xe2, 0xd9, 0x2e, 0x64, 0x2a, 0xa8, 0x3f, 0x68, 0x5e, 0x9a, 0x3e, 0xdb, 0x80, 0x65, 0x05,
    0x51, 0xee, 0xed, 0xca, 0x15, 0x85, 0xcf, 0xe7, 0xd5, 0xe6, 0x26, 0x0b, 0x5c, 0xa2, 0x0d, 0x39,
    0x82, 0x62, 0x34, 0x4f, 0xf3, 0xa2, 0xb4, 0xb8, 0x6e, 0xcd, 0x5b, 0xe9, 0x65, 0xc2, 0xe9, 0x87,
    0x4a, 0x1d, 0x87, 0xfd, 0x48, 0x3d, 0x7a, 0xb1, 0xdf, 0xe3, 0x27, 0x8c, 0x3f, 0x7b, 0x03, 0xb7,
    0xd7, 0xa6, 0xa1, 0x9d, 0xff, 0x2f, 0x0a, 0xc5, 0x7e, 0xe3, 0x92, 0xc4, 0xc4, 0xcc, 0x03, 0xa0,
    0x6c, 0xa0, 0x1e, 0x6a, 0x6d, 0xe5, 0x9b, 0xed, 0xf2, 0x28, 0x87, 0x13, 0x60, 0xc9, 0x6c, 0x44,
    0xc5, 0xcf, 0x72, 0x33, 0x5b, 0x22, 0xf9, 0xac, 0x07, 0x29, 0x03, 0xff, 0xfc, 0x52, 0x9e, 0x2b,
    0xac, 0xb8, 0x70, 0x64, 0x82, 0x79, 0x44, 0x34, 0x45, 0xb1, 0xd5, 0x47, 0x1b, 0x41, 0x0a, 0xec,
    0xfa, 0x05, 0x43, 0x92, 0xe5, 0x4f, 0x86, 0xc9, 0xf3, 0x21, 0x13, 0x60, 0x62, 0xf3, 0x38, 0xf1,
    0x8f, 0xbb, 0x2c, 0x68, 0x89, 0x62, 0x7a, 0xe6, 0x13, 0xcc, 0x5c, 0xad, 0xec, 0x5e, 0x90, 0x1c,
    0x6b, 0xbd, 0xad, 0x95, 0xf5, 0x32, 0x50, 0xaa, 0x73, 0x77, 0x43, 0x9d, 0xe4, 0xb7, 0x9b, 0xe2,
    0x42, 0x2d, 0xfe, 0x80, 0x27, 0xe6, 0x93, 0x00, 0xb4, 0x17, 0x4b, 0x62, 0xac, 0x86, 0x5b, 0x2e,
    0x45, 0xcf, 0xac, 0xfc, 0x33, 0x67, 0x43, 0x3d, 0x78, 0xdc, 0x61, 0x23, 0x24, 0x9b, 0xda, 0x7a,
    0x49, 0x7e, 0x09, 0xea, 0xcf, 0x9e, 0x48, 0xd2, 0xed, 0xf7, 0xc2, 0x1e, 0x2b, 0xd1, 0x93, 0x50,
    0x79, 0x31, 0x9f, 0xc3, 0x4d, 0xcc, 0x05, 0x4b, 0x72, 0xbb, 0x31, 0x9e, 0xb0, 0x69, 0x1c, 0xc3,
    0xe9, 0x68, 0xa8, 0xc6, 0xaa, 0xd6, 0xa4, 0x78, 0xb6, 0x31, 0x9b, 0x3d, 0x8c, 0x42, 0xbe, 0x90,
    0xaa, 0xef, 0xe3, 0xa0, 0xa4, 0x20, 0xa8, 0x30, 0xd8, 0xad, 0xda, 0xe2, 0xe8, 0xf4, 0xcd, 0x7c,
    0x7c, 0x7c, 0xf5, 0xd2, 0x53, 0x8c, 0x4f, 0xc9, 0xd6, 0x01, 0x4b, 0xd1, 0x64, 0x5c, 0xed, 0x79,
    0x70, 0xa6, 0xfb, 0xb3, 0xc7, 0x75, 0x83, 0xe5, 0x99, 0x0c, 0x14, 0xc3, 0x72, 0xef, 0x7a, 0x72,
    0x7f, 0x20, 0xb5, 0xe8, 0x40, 0xf1, 0xdf, 0x6e, 0x41, 0xf4, 0x0b, 0x23, 0xdf, 0x86, 0x5d, 0x63,
    0x5a, 0x12, 0x45, 0x65, 0xab, 0x02, 0x03, 0x01, 0x00, 0x01, 0xa3, 0x7e, 0x30, 0x7c, 0x30, 0x0e,
    0x06, 0x03, 0x55, 0x1d, 0x0f, 0x01, 0x01, 0xff, 0x04, 0x04, 0x03, 0x02, 0x01, 0x06, 0x30, 0x1d,
    0x06, 0x03, 0x55, 0x1d, 0x0e, 0x04, 0x16, 0x04, 0x14, 0x85, 0xac, 0x1a, 0xd1, 0x43, 0xf7, 0xc8,
    0xac, 0x55, 0xd4, 0xc5, 0x1d, 0x41, 0x48, 0xab, 0xd5, 0x78, 0x4a, 0xd4, 0x53, 0x30, 0x0f, 0x06,
    0x03, 0x55, 0x1d, 0x13, 0x01, 0x01, 0xff, 0x04, 0x05, 0x30, 0x03, 0x01, 0x01, 0xff, 0x30, 0x3a,
    0x06, 0x03, 0x55, 0x1d, 0x1f, 0x04, 0x33, 0x30, 0x31, 0x30, 0x2f, 0xa0, 0x2d, 0xa0, 0x2b, 0x86,
    0x29, 0x68, 0x74, 0x74, 0x70, 0x73, 0x3a, 0x2f, 0x2f, 0x6b, 0x64, 0x73, 0x69, 0x6e, 0x74, 0x66,
    0x2e, 0x61, 0x6d, 0x64, 0x2e, 0x63, 0x6f, 0x6d, 0x2f, 0x76, 0x63, 0x65, 0x6b, 0x2f, 0x76, 0x31,
    0x2f, 0x4d, 0x69, 0x6c, 0x61, 0x6e, 0x2f, 0x63, 0x72, 0x6c, 0x30, 0x46, 0x06, 0x09, 0x2a, 0x86,
    0x48, 0x86, 0xf7, 0x0d, 0x01, 0x01, 0x0a, 0x30, 0x39, 0xa0, 0x0f, 0x30, 0x0d, 0x06, 0x09, 0x60,
    0x86, 0x48, 0x01, 0x65, 0x03, 0x04, 0x02, 0x02, 0x05, 0x00, 0xa1, 0x1c, 0x30, 0x1a, 0x06, 0x09,
    0x2a, 0x86, 0x48, 0x86, 0xf7, 0x0d, 0x01, 0x01, 0x08, 0x30, 0x0d, 0x06, 0x09, 0x60, 0x86, 0x48,
    0x01, 0x65, 0x03, 0x04, 0x02, 0x02, 0x05, 0x00, 0xa2, 0x03, 0x02, 0x01, 0x30, 0xa3, 0x03, 0x02,
    0x01, 0x01, 0x03, 0x82, 0x02, 0x01, 0x00, 0xba, 0x9b, 0x49, 0x03, 0xa7, 0xac, 0xef, 0xe0, 0xe8,
    0xdf, 0x83, 0x2f, 0xb3, 0x95, 0xe7, 0xa1, 0xb3, 0x1e, 0xa8, 0x97, 0x4a, 0x1c, 0x81, 0x57, 0xa5,
    0x11, 0x3a, 0x1b, 0xa7, 0x1f, 0x84, 0xb8, 0x2b, 0x2a, 0x54, 0x54, 0x4f, 0x2b, 0x58, 0xd9, 0xd6,
    0xca, 0x7f, 0x97, 0x27, 0x7d, 0xfb, 0x47, 0xd0, 0xd2, 0xbe, 0xba, 0x9f, 0xb9, 0x1a, 0x81, 0x19,
    0x38, 0x09, 0xad, 0xfd, 0x83, 0xae, 0x96, 0x19, 0x32, 0x4c, 0x78, 0x97, 0x6a, 0x62, 0xb8, 0xb0,
    0x49, 0x38, 0xe3, 0x0c, 0x22, 0x95, 0x3d, 0x27, 0xac, 0x59, 0x76, 0x0f, 0x54, 0x0c, 0x83, 0x86,
    0x63, 0xf9, 0x9f, 0x6b, 0xfe, 0x05, 0x88, 0xa9, 0x65, 0x68, 0x69, 0xbe, 0xaa, 0x5a, 0x88, 0xef,
    0x84, 0x18, 0xae, 0x48, 0x04, 0xff, 0xb9, 0xef, 0xc4, 0x1e, 0x5b, 0xfb, 0x12, 0xa2, 0x4a, 0xca,
    0x74, 0x76, 0x8b, 0x03, 0x11, 0xb6, 0x2e, 0x16, 0x71, 0x8f, 0xd6, 0x85, 0xef, 0x77, 0xea, 0x0b,
    0xb3, 0x80, 0x25, 0x9e, 0x5a, 0x3e, 0x89, 0xf0, 0xe1, 0x11, 0x36, 0xf7, 0xd1, 0x55, 0x6a, 0xb8,
    0x75, 0x4f, 0x1d, 0x9e, 0x4f, 0x7c, 0x12, 0x82, 0x40, 0xe0, 0xba, 0xd0, 0x93, 0x07, 0x56, 0x2a,
    0xcd, 0x3e, 0x43, 0xbb, 0x0b, 0xc0, 0x7b, 0xe7, 0x28, 0xd8, 0x22, 0x15, 0x23, 0x33, 0x03, 0x6a,
    0x66, 0x2e, 0x48, 0x58, 0xcf, 0x37, 0x40, 0x42, 0x82, 0x88, 0xe5, 0xed, 0x5f, 0x9b, 0x4e, 0x8b,
    0xbb, 0x74, 0xcb, 0x2a, 0x22, 0xef, 0xd3, 0x5b, 0xfa, 0xcf, 0x09, 0x7f, 0x7f, 0x11, 0x47, 0x29,
    0x28, 0x62, 0xaa, 0x3d, 0x0d, 0xcf, 0xf8, 0xdf, 0x6b, 0xd6, 0x18, 0xc4, 0x15, 0x8d, 0x69, 0x94,
    0x18, 0x3d, 0xde, 0xde, 0x77, 0x38, 0xea, 0x38, 0xf4, 0x63, 0x48, 0xf9, 0x5d, 0x73, 0xbd, 0x73,
    0xcb, 0x23, 0xac, 0x48, 0x15, 0x5b, 0x21, 0xfa, 0x6b, 0x68, 0xd9, 0x1b, 0x60, 0x11, 0x7f, 0xde,
    0xa6, 0x63, 0x0a, 0x4c, 0xd3, 0x7a, 0xa6, 0xc5, 0xbc, 0xf2, 0xa8, 0x3b, 0x73, 0x58, 0x53, 0x5a,
    0xd3, 0x7a, 0x31, 0xb4, 0x6e, 0x43, 0x4b, 0xe6, 0xf8, 0xef, 0xbf, 0xda, 0xd2, 0x81, 0x17, 0x68,
    0x7c, 0x4c, 0x76, 0xfd, 0xe0, 0xeb, 0xef, 0x1c, 0x7a, 0x05, 0x0e, 0x96, 0xc2, 0x10, 0xb9, 0x6a,
    0x1e, 0x72, 0x18, 0x87, 0x1c, 0xb4, 0x60, 0xa5, 0xc6, 0xc9, 0xa5, 0xb5, 0x36, 0x37, 0xd4, 0x2f,
    0x1a, 0xeb, 0x9b, 0x15, 0x56, 0xe3, 0x07, 0x27, 0xe4, 0x4f, 0x06, 0x75, 0xd9, 0xaf, 0x35, 0xae,
    0xb2, 0x62, 0x6f, 0x2c, 0x70, 0x96, 0xa0, 0x12, 0x2d, 0x77, 0x9a, 0x11, 0xae, 0xe0, 0x9a, 0xa1,
    0xdd, 0x05, 0x37, 0xb1, 0xff, 0x22, 0x51, 0x25, 0x2b, 0xd3, 0xdc, 0x50, 0x0f, 0x01, 0xed, 0x39,
    0x05, 0x15, 0x22, 0xac, 0x78, 0x99, 0xa0, 0x59, 0x3c, 0x1b, 0x52, 0x31, 0xff, 0xaa, 0x50, 0x3b,
    0x63, 0x5d, 0x24, 0xaa, 0xf2, 0x57, 0xd6, 0x71, 0xdf, 0x1b, 0x2e, 0xbf, 0x66, 0x76, 0xc5, 0x27,
    0x25, 0x92, 0x74, 0xfa, 0xdb, 0x8f, 0x30, 0xa9, 0x81, 0x9d, 0x21, 0xfc, 0xeb, 0x49, 0x65, 0x2a,
    0x4f, 0x95, 0xa5, 0x54, 0x2c, 0x82, 0xa6, 0xf3, 0x0c, 0x8b, 0xce, 0x2e, 0xf0, 0xfa, 0x5b, 0x55,
    0x26, 0xab, 0x6e, 0x5b, 0xa3, 0x10, 0x98, 0x27, 0xe4, 0xee, 0x06, 0x86, 0xb8, 0xb3, 0xe1, 0xc7,
    0x09, 0x58, 0x80, 0xbe, 0x04, 0xfd, 0x91, 0xff, 0xeb, 0x06, 0xad, 0x5d, 0xfa, 0x2b, 0xe3, 0xea,
    0xc9, 0x24, 0x1f, 0x1b, 0xb3, 0x73, 0x16, 0xe4, 0xd7, 0x1b, 0xfa, 0x64, 0x6c, 0x6b, 0xb5, 0xe2,
    0x71, 0x54, 0x7e, 0xca, 0x95, 0x7e, 0xd8, 0x45, 0xd6, 0x7a, 0x78, 0x04, 0x4a, 0xc0, 0xb7, 0xb8,
    0x00, 0x56, 0x44, 0x03, 0x0a, 0x0a, 0x09,
];

/// The AMD root key (ARK) certificate for Genoa, DER encoded.
pub const GENOA_ARK: [u8; 1639] = [
    0x30, 0x82, 0x06, 0x63, 0x30, 0x82, 0x04, 0x12, 0xa0, 0x03, 0x02, 0x01, 0x02, 0x02, 0x03, 0x02,
    0x00, 0x00, 0x30, 0x46, 0x06, 0x09, 0x2a, 0x86, 0x48, 0x86, 0xf7, 0x0d, 0x01, 0x01, 0x0a, 0x30,
    0x39, 0xa0, 0x0f, 0x30, 0x0d, 0x06, 0x09, 0x60, 0x86, 0x48, 0x01, 0x65, 0x03, 0x04, 0x02, 0x02,
    0x05, 0x00, 0xa1, 0x1c, 0x30, 0x1a, 0x06, 0x09, 0x2a, 0x86, 0x48, 0x86, 0xf7, 0x0d, 0x01, 0x01,
    0x08, 0x30, 0x0d, 0x06, 0x09, 0x60, 0x86, 0x48, 0x01, 0x65, 0x03, 0x04, 0x02, 0x02, 0x05, 0x00,
    0xa2, 0x03, 0x02, 0x01, 0x30, 0xa3, 0x03, 0x02, 0x01, 0x01, 0x30, 0x7b, 0x31, 0x14, 0x30, 0x12,
    0x06, 0x03, 0x55, 0x04, 0x0b, 0x0c, 0x0b, 0x45, 0x6e, 0x67, 0x69, 0x6e, 0x65, 0x65, 0x72, 0x69,
    0x6e, 0x67, 0x31, 0x0b, 0x30, 0x09, 0x06, 0x03, 0x55, 0x04, 0x06, 0x13, 0x02, 0x55, 0x53, 0x31,
    0x14, 0x30, 0x12, 0x06, 0x03, 0x55, 0x04, 0x07, 0x0c, 0x0b, 0x53, 0x61, 0x6e, 0x74, 0x61, 0x20,
    0x43, 0x6c, 0x61, 0x72, 0x61, 0x31, 0x0b, 0x30, 0x09, 0x06, 0x03, 0x55, 0x04, 0x08, 0x0c, 0x02,
    0x43, 0x41, 0x31, 0x1f, 0x30, 0x1d, 0x06, 0x03, 0x55, 0x04, 0x0a, 0x0c, 0x16, 0x41, 0x64, 0x76,
    0x61, 0x6e, 0x63, 0x65, 0x64, 0x20, 0x4d, 0x69, 0x63, 0x72, 0x6f, 0x20, 0x44, 0x65, 0x76, 0x69,
    0x63, 0x65, 0x73, 0x31, 0x12, 0x30, 0x10, 0x06, 0x03, 0x55, 0x04, 0x03, 0x0c, 0x09, 0x41, 0x52,
    0x4b, 0x2d, 0x47, 0x65, 0x6e, 0x6f, 0x61, 0x30, 0x1e, 0x17, 0x0d, 0x32, 0x32, 0x30, 0x31, 0x32,
    0x36, 0x31, 0x35, 0x33, 0x34, 0x33, 0x37, 0x5a, 0x17, 0x0d, 0x34, 0x37, 0x30, 0x31, 0x32, 0x36,
    0x31, 0x35, 0x33, 0x34, 0x33, 0x37, 0x5a, 0x30, 0x7b, 0x31, 0x14, 0x30, 0x12, 0x06, 0x03, 0x55,
    0x04, 0x0b, 0x0c, 0x0b, 0x45, 0x6e, 0x67, 0x69, 0x6e, 0x65, 0x65, 0x72, 0x69, 0x6e, 0x67, 0x31,
    0x0b, 0x30, 0x09, 0x06, 0x03, 0x55, 0x04, 0x06, 0x13, 0x02, 0x55, 0x53, 0x31, 0x14, 0x30, 0x12,
    0x06, 0x03, 0x55, 0x04, 0x07, 0x0c, 0x0b, 0x53, 0x61, 0x6e, 0x74, 0x61, 0x20, 0x43, 0x6c, 0x61,
    0x72, 0x61, 0x31, 0x0b, 0x30, 0x09, 0x06, 0x03, 0x55, 0x04, 0x08, 0x0c, 0x02, 0x43, 0x41, 0x31,
    0x1f, 0x30, 0x1d, 0x06, 0x03, 0x55, 0x04, 0x0a, 0x0c, 0x16, 0x41, 0x64, 0x76, 0x61, 0x6e, 0x63,
    0x65, 0x64, 0x20, 0x4d, 0x69, 0x63, 0x72, 0x6f, 0x20, 0x44, 0x65, 0x76, 0x69, 0x63, 0x65, 0x73,
    0x31, 0x12, 0x30, 0x10, 0x06, 0x03, 0x55, 0x04, 0x03, 0x0c, 0x09, 0x41, 0x52, 0x4b, 0x2d, 0x47,
    0x65, 0x6e, 0x6f, 0x61, 0x30, 0x82, 0x02, 0x22, 0x30, 0x0d, 0x06, 0x09, 0x2a, 0x86, 0x48, 0x86,
    0xf7, 0x0d, 0x01, 0x01, 0x01, 0x05, 0x00, 0x03, 0x82, 0x02, 0x0f, 0x00, 0x30, 0x82, 0x02, 0x0a,
    0x02, 0x82, 0x02, 0x01, 0x00, 0xdc, 0x27, 0x7d, 0xe5, 0x2f, 0xee, 0x14, 0xeb, 0x91, 0x22, 0xc9,
    0x16, 0xf6, 0xfc, 0xfd, 0x54, 0x30, 0x45, 0xeb, 0xd3, 0x43, 0x40, 0x5e, 0xfd, 0xa1, 0x18, 0x4b,
    0xfc, 0xbd, 0x8f, 0x55, 0x01, 0xa1, 0x2b, 0x76, 0x1d, 0x7c, 0x40, 0x60, 0xa4, 0x5f, 0xc9, 0x8b,
    0x05, 0x85, 0x06, 0xc4, 0xff, 0x7d, 0x70, 0xe1, 0xcc, 0x0d, 0x35, 0xa7, 0x72, 0xe4, 0x71, 0x3f,
    0xfb, 0x2d, 0xd8, 0xdc, 0x45, 0xf2, 0x97, 0x8c, 0x79, 0x7e, 0xd1, 0x0a, 0xbf, 0x33, 0x87, 0x59,
    0x92, 0x1e, 0x90, 0x0e, 0x85, 0x1e, 0x2b, 0x33, 0x41, 0x2c, 0x37, 0x01, 0x28, 0x30, 0xc6, 0x5a,
    0x8d, 0xef, 0xdf, 0x93, 0x72, 0xaf, 0x16, 0xc0, 0xd4, 0x39, 0xe4, 0x63, 0x05, 0x0a, 0x53, 0x90,
    0x00, 0x93, 0x83, 0xfd, 0xe2, 0xd2, 0x97, 0x2e, 0x9f, 0x34, 0xa3, 0x1b, 0x7c, 0xe1, 0xa8, 0x72,
    0x1e, 0x82, 0xe6, 0x73, 0xf2, 0xea, 0xb0, 0x6b, 0x29, 0xfa, 0x8a, 0xb5, 0x07, 0x3e, 0x0f, 0x3e,
    0xc6, 0x0b, 0xc1, 0x31, 0xb8, 0x88, 0xc2, 0x95, 0x69, 0xa4, 0xfd, 0xd3, 0xfa, 0x19, 0xe0, 0x8f,
    0x28, 0x89, 0xb4, 0xab, 0xbb, 0xdd, 0xaf, 0x26, 0x19, 0x6a, 0x58, 0xed, 0xbb, 0x77, 0xf4, 0x71,
    0x73, 0x78, 0x94, 0x33, 0x28, 0x4d, 0x78, 0x64, 0xe8, 0x3a, 0xf8, 0x31, 0xfe, 0x25, 0x28, 0xe2,
    0x01, 0xa9, 0x1b, 0xad, 0x4d, 0x0e, 0x99, 0x04, 0x52, 0xf2, 0x33, 0xb8, 0xa7, 0x1a, 0x33, 0x1f,
    0x08, 0x75, 0x3a, 0x56, 0x83, 0x60, 0xc5, 0xe9, 0x2c, 0x05, 0xd0, 0x88, 0x15, 0x31, 0xf7, 0xe7,
    0xbe, 0xd2, 0x66, 0x03, 0xaf, 0x01, 0xc0, 0x93, 0x56, 0xa3, 0x51, 0x38, 0x3c, 0xb2, 0x5d, 0x68,
    0xf7, 0xc1, 0x89, 0xf7, 0x09, 0xa6, 0xe0, 0x45, 0xc0, 0xd5, 0x50, 0x20, 0xf4, 0x04, 0x55, 0x7d,
    0xda, 0x3f, 0xcf, 0x47, 0x25, 0x2a, 0x7c, 0x61, 0xb6, 0x3d, 0x97, 0x24, 0x92, 0xe8, 0xf9, 0x55,
    0x12, 0xa4, 0xc1, 0x06, 0xd6, 0x90, 0x9a, 0x2e, 0x00, 0x4c, 0x69, 0x8c, 0x47, 0xe9, 0xf6, 0x2b,
    0xf7, 0xbe, 0x24, 0x08, 0x54, 0xd8, 0x68, 0xfb, 0x8c, 0x8a, 0x49, 0x84, 0xe9, 0x1d, 0x1f, 0xd7,
    0xe2, 0xad, 0x00, 0xe7, 0x9a, 0x50, 0x36, 0x48, 0x57, 0xc9, 0xfc, 0x27, 0x34, 0x98, 0x63, 0x73,
    0x5b, 0xd4, 0x66, 0x22, 0x1c, 0x8e, 0x52, 0x73, 0x45, 0xa1, 0xc9, 0x66, 0x91, 0x18, 0x65, 0xdf,
    0xf0, 0x10, 0x53, 0x96, 0x2c, 0xf5, 0x0b, 0x1a, 0x9f, 0x58, 0xd3, 0xfc, 0x48, 0xb2, 0x4f, 0xea,
    0x42, 0xa6, 0x69, 0xc0, 0xfb, 0x2f, 0x5e, 0x76, 0xf8, 0x43, 0x09, 0xb3, 0x86, 0xf0, 0x5d, 0xa8,
    0xc4, 0x71, 0x91, 0x75, 0x30, 0x64, 0xca, 0x5b, 0xa7, 0x82, 0xb9, 0x17, 0x24, 0x66, 0x22, 0xc0,
    0x6a, 0xd1, 0xf2, 0x46, 0xa2, 0xaa, 0xfe, 0xcd, 0x37, 0xc4, 0x21, 0x38, 0x13, 0x2a, 0x62, 0x37,
    0x1b, 0xae, 0x41, 0x2b, 0xd1, 0xff, 0x10, 0x30, 0xa9, 0x25, 0x21, 0x2e, 0x6b, 0xb8, 0xe7, 0xea,
    0x94, 0xb3, 0x02, 0x07, 0x0f, 0x09, 0x2c, 0x1d, 0xcb, 0x92, 0x3a, 0x56, 0x82, 0xd0, 0xfb, 0x3a,
    0x9c, 0x64, 0xcd, 0x2b, 0x28, 0x84, 0xde, 0x3b, 0x52, 0x89, 0xbc, 0xe9, 0x16, 0x3a, 0x96, 0x9e,
    0xf6, 0x83, 0xc7, 0x97, 0x1c, 0xfd, 0x6a, 0x62, 0xb9, 0xef, 0x87, 0x36, 0x86, 0xd5, 0x2e, 0xf4,
    0xbf, 0x0e, 0x8e, 0x91, 0xb6, 0x9a, 0x0b, 0xd1, 0x23, 0x88, 0x7f, 0xee, 0x1e, 0x00, 0x09, 0x40,
    0x6c, 0x68, 0x9f, 0xbb, 0xb4, 0x43, 0xbc, 0x60, 0xa1, 0x11, 0x16, 0x03, 0xf7, 0xbb, 0x25, 0xc0,
    0x50, 0xc0, 0xb8, 0x3c, 0xd0, 0x7a, 0xbf, 0xb1, 0xb4, 0x6e, 0xa9, 0xeb, 0x31, 0xcf, 0xbc, 0x01,
    0x59, 0x26, 0x36, 0xe7, 0x87, 0x02, 0x03, 0x01, 0x00, 0x01, 0xa3, 0x7e, 0x30, 0x7c, 0x30, 0x0e,
    0x06, 0x03, 0x55, 0x1d, 0x0f, 0x01, 0x01, 0xff, 0x04, 0x04, 0x03, 0x02, 0x01, 0x06, 0x30, 0x1d,
    0x06, 0x03, 0x55, 0x1d, 0x0e, 0x04, 0x16, 0x04, 0x14, 0x9f, 0x5d, 0xf9, 0xfe, 0x0d, 0xd8, 0xf3,
    0x5a, 0xd0, 0x33, 0x1a, 0x25, 0xef, 0x81, 0x29, 0x4f, 0xbe, 0x31, 0xa8, 0x5b, 0x30, 0x0f, 0x06,
    0x03, 0x55, 0x1d, 0x13, 0x01, 0x01, 0xff, 0x04, 0x05, 0x30, 0x03, 0x01, 0x01, 0xff, 0x30, 0x3a,
    0x06, 0x03, 0x55, 0x1d, 0x1f, 0x04, 0x33, 0x30, 0x31, 0x30, 0x2f, 0xa0, 0x2d, 0xa0, 0x2b, 0x86,
    0x29, 0x68, 0x74, 0x74, 0x70, 0x73, 0x3a, 0x2f, 0x2f, 0x6b, 0x64, 0x73, 0x69, 0x6e, 0x74, 0x66,
    0x2e, 0x61, 0x6d, 0x64, 0x2e, 0x63, 0x6f, 0x6d, 0x2f, 0x76, 0x63, 0x65, 0x6b, 0x2f, 0x76, 0x31,
    0x2f, 0x47, 0x65, 0x6e, 0x6f, 0x61, 0x2f, 0x63, 0x72, 0x6c, 0x30, 0x46, 0x06, 0x09, 0x2a, 0x86,
    0x48, 0x86, 0xf7, 0x0d, 0x01, 0x01, 0x0a, 0x30, 0x39, 0xa0, 0x0f, 0x30, 0x0d, 0x06, 0x09, 0x60,
    0x86, 0x48, 0x01, 0x65, 0x03, 0x04, 0x02, 0x02, 0x05, 0x00, 0xa1, 0x1c, 0x30, 0x1a, 0x06, 0x09,
    0x2a, 0x86, 0x48, 0x86, 0xf7, 0x0d, 0x01, 0x01, 0x08, 0x30, 0x0d, 0x06, 0x09, 0x60, 0x86, 0x48,
    0x01, 0x65, 0x03, 0x04, 0x02, 0x02, 0x05, 0x00, 0xa2, 0x03, 0x02, 0x01, 0x30, 0xa3, 0x03, 0x02,
    0x01, 0x01, 0x03, 0x82, 0x02, 0x01, 0x00, 0x1d, 0x22, 0x53, 0xc1, 0x0b, 0xb0, 0xd0, 0x9a, 0xf1,
    0xfb, 0x92, 0x39, 0x4e, 0xce, 0x71, 0x71, 0xde, 0x2d, 0xb5, 0x4b, 0x33, 0x8f, 0x0e, 0xce, 0x4b,
    0xed, 0x28, 0x05, 0x8c, 0xc0, 0xbd, 0xad, 0x1d, 0x3b, 0xdb, 0xdd, 0x86, 0x40, 0x20, 0x3b, 0x67,
    0xb5, 0x25, 0xab, 0xde, 0xc9, 0x41, 0xa5, 0x9e, 0x0f, 0x6a, 0x1f, 0x18, 0x6b, 0x1e, 0xe6, 0xcc,
    0x23, 0xe0, 0xe4, 0x1f, 0x29, 0xf5, 0x6f, 0xff, 0x36, 0x89, 0x50, 0x58, 0xef, 0xa2, 0xc6, 0x4e,
    0x9d, 0xf6, 0x7a, 0xdd, 0xea, 0x6e, 0xf0, 0xc8, 0xd6, 0x80, 0x14, 0x97, 0x26, 0x0e, 0x50, 0x13,
    0xf0, 0x25, 0xd3, 0x34, 0x6c, 0x66, 0xca, 0x79, 0xdc, 0x30, 0x53, 0x74, 0x0f, 0x94, 0xbf, 0xfb,
    0x37, 0xdd, 0xf7, 0xb1, 0x75, 0xe9, 0xd3, 0xd6, 0x6a, 0x4a, 0x63, 0x38, 0x48, 0x83, 0xf7, 0x0a,
    0xb7, 0x3e, 0x28, 0x33, 0x1a, 0xbc, 0x24, 0xa5, 0x89, 0xf0, 0xfa, 0x35, 0x09, 0x72, 0xf3, 0x29,
    0xc7, 0xeb, 0x4e, 0x98, 0x63, 0x95, 0xb9, 0x21, 0xf0, 0x05, 0x4a, 0x31, 0x77, 0x81, 0x77, 0x64,
    0xa9, 0x33, 0x7d, 0xc1, 0xd5, 0x83, 0xf8, 0x83, 0x50, 0x4e, 0x76, 0x4d, 0x35, 0xde, 0x4a, 0x9b,
    0xed, 0xb4, 0x47, 0x67, 0x58, 0x81, 0xd8, 0x91, 0xc6, 0xe5, 0xc3, 0x0a, 0x29, 0xbc, 0x11, 0x09,
    0x20, 0x00, 0x18, 0x72, 0xd3, 0xcc, 0x04, 0xa0, 0x0d, 0xc5, 0xeb, 0xf4, 0x5a, 0x7b, 0x67, 0x79,
    0x62, 0x0e, 0x11, 0xae, 0xfd, 0xc8, 0xb5, 0xa2, 0x91, 0xa6, 0x92, 0x9d, 0x76, 0x40, 0xd8, 0x89,
    0xb8, 0x16, 0xe4, 0x4d, 0x4f, 0xb1, 0x0d, 0x91, 0xe6, 0xe5, 0x7f, 0x09, 0x9b, 0xdf, 0x41, 0x5f,
    0xb3, 0x44, 0xa7, 0x39, 0x4e, 0xc0, 0x85, 0x51, 0xf0, 0x29, 0x60, 0x04, 0x3c, 0xae, 0x06, 0x40,
    0x42, 0xda, 0x58, 0xed, 0xaf, 0x76, 0x52, 0x69, 0x42, 0x18, 0x8f, 0x6c, 0x6e, 0xc9, 0x63, 0x7d,
    0xe4, 0xa1, 0x58, 0xe3, 0xd9, 0xd6, 0xc5, 0xcc, 0xfd, 0xd0, 0x21, 0x5a, 0xdc, 0x7c, 0xe6, 0xcb,
    0x8c, 0xcc, 0x42, 0x60, 0x5e, 0xf5, 0xd5, 0x72, 0x96, 0xce, 0x5e, 0x2f, 0x9a, 0x7d, 0x6e, 0x45,
    0xdc, 0x81, 0x13, 0x03, 0x4d, 0xb8, 0x26, 0x55, 0x98, 0x80, 0x7f, 0x86, 0x9f, 0x7b, 0xc0, 0xcb,
    0x76, 0x64, 0x1c, 0x61, 0xc3, 0x05, 0x41, 0xb1, 0xe1, 0x81, 0x5c, 0xcc, 0x8b, 0x26, 0x47, 0x18,
    0x98, 0x1c, 0x0a, 0xb4, 0x26, 0x03, 0xb3, 0x24, 0x4f, 0x01, 0x08, 0x76, 0xcd, 0x70, 0xc7, 0xf1,
    0xf3, 0x31, 0xcc, 0x14, 0xe2, 0xaa, 0x8d, 0x04, 0x0a, 0x19, 0x57, 0xba, 0x1e, 0x20, 0x83, 0xf1,
    0x76, 0xa1, 0x57, 0x7c, 0xfa, 0x87, 0xaa, 0x24, 0x65, 0x11, 0xb4, 0x43, 0x7d, 0x7d, 0x53, 0x1b,
    0x93, 0x45, 0x55, 0xa7, 0x81, 0xc9, 0x7d, 0x06, 0xc8, 0x7e, 0xa3, 0xcd, 0x85, 0x6e, 0x7b, 0x31,
    0x13, 0xce, 0xbb, 0x9a, 0x93, 0x2e, 0x9f, 0xa7, 0x66, 0xe5, 0xd9, 0xb7, 0x33, 0xc4, 0xf1, 0x3c,
    0x1d, 0xd4, 0xb7, 0xf2, 0x28, 0xe2, 0x26, 0x69, 0xbd, 0xbe, 0x5e, 0x74, 0x44, 0x65, 0x1e, 0x38,
    0x05, 0xe3, 0x4a, 0xe2, 0x27, 0x19, 0x1e, 0x1b, 0xb1, 0x1b, 0x9f, 0x78, 0x63, 0xc1, 0xf6, 0x97,
    0x93, 0x6b, 0xd0, 0x5c, 0x04, 0xe7, 0x93, 0x5b, 0x3b, 0x2d, 0xa9, 0x35, 0x01, 0xfc, 0x5f, 0xea,
    0x69, 0x90, 0x88, 0x64, 0xaa, 0xf8, 0x5f, 0xa4, 0xf2, 0x7d, 0x4b, 0x92, 0x0f, 0x3f, 0xf5, 0x24,
    0x30, 0x06, 0x97, 0xe9, 0x71, 0x74, 0xcd, 0x0f, 0xf7, 0xe9, 0x4b, 0x68, 0xff, 0x4d, 0x6a, 0x14,
    0x23, 0x1c, 0x25, 0x5f, 0xd3, 0x37, 0xf5, 0x73, 0x5b, 0x1a, 0x95, 0x5b, 0x86, 0x16, 0x4d, 0xb0,
    0xff, 0x03, 0x33, 0xd5, 0x1d, 0x41, 0x1e,
];

/// The AMD root key (ARK) certificate for Turin, DER encoded.
pub const TURIN_ARK: [u8; 1639] = [
    0x30, 0x82, 0x06, 0x63, 0x30, 0x82, 0x04, 0x12, 0xa0, 0x03, 0x02, 0x01, 0x02, 0x02, 0x03, 0x03,
    0x00, 0x00, 0x30, 0x46, 0x06, 0x09, 0x2a, 0x86, 0x48, 0x86, 0xf7, 0x0d, 0x01, 0x01, 0x0a, 0x30,
    0x39, 0xa0, 0x0f, 0x30, 0x0d, 0x06, 0x09, 0x60, 0x86, 0x48, 0x01, 0x65, 0x03, 0x04, 0x02, 0x02,
    0x05, 0x00, 0xa1, 0x1c, 0x30, 0x1a, 0x06, 0x09, 0x2a, 0x86, 0x48, 0x86, 0xf7, 0x0d, 0x01, 0x01,
    0x08, 0x30, 0x0d, 0x06, 0x09, 0x60, 0x86, 0x48, 0x01, 0x65, 0x03, 0x04, 0x02, 0x02, 0x05, 0x00,
    0xa2, 0x03, 0x02, 0x01, 0x30, 0xa3, 0x03, 0x02, 0x01, 0x01, 0x30, 0x7b, 0x31, 0x14, 0x30, 0x12,
    0x06, 0x03, 0x55, 0x04, 0x0b, 0x0c, 0x0b, 0x45, 0x6e, 0x67, 0x69, 0x6e, 0x65, 0x65, 0x72, 0x69,
    0x6e, 0x67, 0x31, 0x0b, 0x30, 0x09, 0x06, 0x03, 0x55, 0x04, 0x06, 0x13, 0x02, 0x55, 0x53, 0x31,
    0x14, 0x30, 0x12, 0x06, 0x03, 0x55, 0x04, 0x07, 0x0c, 0x0b, 0x53, 0x61, 0x6e, 0x74, 0x61, 0x20,
    0x43, 0x6c, 0x61, 0x72, 0x61, 0x31, 0x0b, 0x30, 0x09, 0x06, 0x03, 0x55, 0x04, 0x08, 0x0c, 0x02,
    0x43, 0x41, 0x31, 0x1f, 0x30, 0x1d, 0x06, 0x03, 0x55, 0x04, 0x0a, 0x0c, 0x16, 0x41, 0x64, 0x76,
    0x61, 0x6e, 0x63, 0x65, 0x64, 0x20, 0x4d, 0x69, 0x63, 0x72, 0x6f, 0x20, 0x44, 0x65, 0x76, 0x69,
    0x63, 0x65, 0x73, 0x31, 0x12, 0x30, 0x10, 0x06, 0x03, 0x55, 0x04, 0x03, 0x0c, 0x09, 0x41, 0x52,
    0x4b, 0x2d, 0x54, 0x75, 0x72, 0x69, 0x6e, 0x30, 0x1e, 0x17, 0x0d, 0x32, 0x33, 0x30, 0x35, 0x31,
    0x35, 0x32, 0x30, 0x30, 0x33, 0x31, 0x32, 0x5a, 0x17, 0x0d, 0x34, 0x38, 0x30, 0x35, 0x31, 0x35,
    0x32, 0x30, 0x30, 0x33, 0x31, 0x32, 0x5a, 0x30, 0x7b, 0x31, 0x14, 0x30, 0x12, 0x06, 0x03, 0x55,
    0x04, 0x0b, 0x0c, 0x0b, 0x45, 0x6e, 0x67, 0x69, 0x6e, 0x65, 0x65, 0x72, 0x69, 0x6e, 0x67, 0x31,
    0x0b, 0x30, 0x09, 0x06, 0x03, 0x55, 0x04, 0x06, 0x13, 0x02, 0x55, 0x53, 0x31, 0x14, 0x30, 0x12,
    0x06, 0x03, 0x55, 0x04, 0x07, 0x0c, 0x0b, 0x53, 0x61, 0x6e, 0x74, 0x61, 0x20, 0x43, 0x6c, 0x61,
    0x72, 0x61, 0x31, 0x0b, 0x30, 0x09, 0x06, 0x03, 0x55, 0x04, 0x08, 0x0c, 0x02, 0x43, 0x41, 0x31,
    0x1f, 0x30, 0x1d, 0x06, 0x03, 0x55, 0x04, 0x0a, 0x0c, 0x16, 0x41, 0x64, 0x76, 0x61, 0x6e, 0x63,
    0x65, 0x64, 0x20, 0x4d, 0x69, 0x63, 0x72, 0x6f, 0x20, 0x44, 0x65, 0x76, 0x69, 0x63, 0x65, 0x73,
    0x31, 0x12, 0x30, 0x10, 0x06, 0x03, 0x55, 0x04, 0x03, 0x0c, 0x09, 0x41, 0x52, 0x4b, 0x2d, 0x54,
    0x75, 0x72, 0x69, 0x6e, 0x30, 0x82, 0x02, 0x22, 0x30, 0x0d, 0x06, 0x09, 0x2a, 0x86, 0x48, 0x86,
    0xf7, 0x0d, 0x01, 0x01, 0x01, 0x05, 0x00, 0x03, 0x82, 0x02, 0x0f, 0x00, 0x30, 0x82, 0x02, 0x0a,
    0x02, 0x82, 0x02, 0x01, 0x00, 0xc1, 0xa0, 0x2b, 0x88, 0x1e, 0xc4, 0x22, 0xe5, 0x5c, 0xe1, 0x90,
    0x75, 0xc0, 0x3d, 0xd8, 0x7c, 0x3c, 0x4b, 0xfb, 0xd7, 0xb2, 0x4b, 0xbf, 0xa2, 0xce, 0x6d, 0x09,
    0x8f, 0x75, 0xbb, 0xef, 0x63, 0x48, 0x34, 0x25, 0xa5, 0xf0, 0x18, 0xf7, 0xc3, 0xf2, 0x43, 0xd9,
    0x98, 0xe6, 0x6d, 0x1c, 0x56, 0x74, 0x8a, 0xbf, 0xe1, 0xdf, 0x62, 0x6a, 0xb0, 0x8a, 0xa2, 0xb5,
    0xe5, 0xa0, 0x95, 0x01, 0xd6, 0x34, 0x5d, 0x83, 0x1a, 0x9c, 0x71, 0x3c, 0x75, 0x68, 0xea, 0x22,
    0x83, 0x8f, 0xb6, 0xc3, 0x55, 0xe1, 0x55, 0x52, 0x53, 0xec, 0xae, 0x39, 0xef, 0x04, 0xf9, 0x64,
    0xb3, 0x49, 0x81, 0x06, 0xb1, 0xa9, 0xaf, 0x44, 0xb6, 0x4c, 0x23, 0x77, 0xaf, 0xbd, 0xb0, 0xe8,
    0x65, 0x08, 0x31, 0x3d, 0x97, 0x8d, 0xe4, 0x43, 0x44, 0x76, 0x06, 0x29, 0x15, 0x25, 0xaf, 0xee,
    0xcb, 0x25, 0x4e, 0x4b, 0x01, 0x24, 0xe7, 0x0e, 0x6d, 0x5c, 0xa3, 0xae, 0x1b, 0xd8, 0xef, 0xab,
    0xa4, 0x2d, 0x00, 0xc2, 0x5a, 0xb1, 0x6d, 0xfc, 0xc2, 0x5a, 0x91, 0x0d, 0xa2, 0x84, 0x1a, 0xd6,
    0x7d, 0x55, 0x48, 0x06, 0xa2, 0x7d, 0xbb, 0x66, 0xe2, 0xf8, 0xb1, 0x32, 0x6e, 0x0b, 0xf6, 0xb3,
    0xcf, 0xdf, 0xe2, 0x40, 0x1c, 0x3c, 0x90, 0x48, 0xa5, 0xcc, 0xe9, 0x7d, 0xe4, 0x08, 0x93, 0x91,
    0xe6, 0x39, 0x8d, 0x21, 0x01, 0x0d, 0x66, 0xc0, 0xaa, 0x76, 0x64, 0xe6, 0xa9, 0x4c, 0xee, 0x42,
    0x12, 0x28, 0x6d, 0xb4, 0x92, 0x04, 0x26, 0xd7, 0x89, 0xa1, 0x34, 0xa0, 0xc8, 0xda, 0x9d, 0xa8,
    0xb9, 0xaf, 0xb3, 0xb8, 0x01, 0xbb, 0x8b, 0x9d, 0x9e, 0xa6, 0x84, 0x45, 0xd8, 0x67, 0xd4, 0xd1,
    0x36, 0x24, 0xff, 0x27, 0xfe, 0xbc, 0x23, 0x41, 0xda, 0xd9, 0xde, 0x72, 0x11, 0x50, 0xb8, 0xfd,
    0x9e, 0xf1, 0xb2, 0xe4, 0xf7, 0x96, 0x5d, 0xa8, 0xf8, 0xbd, 0xfd, 0x45, 0xb0, 0xe0, 0x95, 0xe3,
    0xb5, 0xd1, 0x00, 0xe2, 0xed, 0x89, 0x62, 0x99, 0x52, 0x49, 0x43, 0xd0, 0x54, 0x05, 0xca, 0xb7,
    0xa2, 0xd5, 0xaa, 0xe8, 0xed, 0x25, 0xc3, 0x39, 0xf4, 0x92, 0xab, 0xda, 0xed, 0x17, 0x43, 0xbe,
    0x4a, 0xc3, 0x17, 0x0c, 0xa7, 0x5e, 0x60, 0x49, 0x78, 0x41, 0x7c, 0x89, 0xef, 0x3c, 0x0c, 0x2e,
    0x01, 0x8e, 0x1d, 0x13, 0x0c, 0x06, 0xa9, 0x3f, 0x28, 0x22, 0x0e, 0x1e, 0xb0, 0xf1, 0xf0, 0x12,
    0xc9, 0x82, 0x86, 0x16, 0x1e, 0x0c, 0x8c, 0x4f, 0x1b, 0xd4, 0x78, 0x7f, 0x1f, 0x4e, 0xd2, 0xae,
    0xa9, 0xf0, 0x66, 0xfe, 0x1d, 0x79, 0x53, 0x89, 0x2e, 0x3b, 0x3f, 0xd6, 0x0d, 0x78, 0xea, 0x62,
    0x74, 0xe5, 0x0a, 0xcc, 0x39, 0x7f, 0x4b, 0x53, 0xaf, 0xca, 0x10, 0xed, 0x48, 0xbf, 0x0b, 0x25,
    0xcd, 0xb8, 0x40, 0x04, 0xc5, 0xc9, 0xda, 0x3f, 0x88, 0x3f, 0xca, 0x51, 0xdb, 0xc5, 0x4d, 0x19,
    0x43, 0xd1, 0xca, 0xe4, 0x00, 0xc9, 0x19, 0x2e, 0x85, 0x90, 0xf2, 0x12, 0xc3, 0x19, 0xce, 0x81,
    0x64, 0x95, 0xec, 0x75, 0xde, 0xd9, 0x7f, 0x67, 0xb8, 0x51, 0x6d, 0xed, 0x23, 0xfd, 0x68, 0x87,
    0xfd, 0xad, 0xdb, 0x73, 0xad, 0xdf, 0x3c, 0xa1, 0x4d, 0xcb, 0xf9, 0x80, 0x36, 0xc0, 0x06, 0xed,
    0x0b, 0x8d, 0x57, 0xbd, 0xf2, 0xe4, 0x67, 0x4b, 0x5e, 0x52, 0x33, 0x02, 0xbf, 0xfe, 0x52, 0x6d,
    0xf5, 0xee, 0x41, 0xa8, 0xab, 0xe0, 0x00, 0x19, 0x12, 0xa0, 0x00, 0x5f, 0xf8, 0x1e, 0x15, 0x16,
    0xd3, 0xd5, 0x11, 0x7d, 0x32, 0x82, 0xb6, 0x1a, 0x15, 0xa2, 0x3d, 0x8b, 0x90, 0x01, 0xaf, 0x19,
    0xd5, 0x06, 0x6c, 0xd7, 0xa5, 0x16, 0xf6, 0xd6, 0x22, 0x35, 0x36, 0x53, 0x42, 0x7c, 0xe1, 0x94,
    0x3c, 0x88, 0x55, 0xa5, 0x61, 0x02, 0x03, 0x01, 0x00, 0x01, 0xa3, 0x7e, 0x30, 0x7c, 0x30, 0x0e,
    0x06, 0x03, 0x55, 0x1d, 0x0f, 0x01, 0x01, 0xff, 0x04, 0x04, 0x03, 0x02, 0x01, 0x06, 0x30, 0x1d,
    0x06, 0x03, 0x55, 0x1d, 0x0e, 0x04, 0x16, 0x04, 0x14, 0x64, 0xa0, 0x5f, 0x71, 0xe3, 0x0c, 0x0a,
    0x64, 0xd8, 0x3b, 0x75, 0xe5, 0x01, 0x59, 0x9e, 0x2b, 0xee, 0x06, 0x03, 0x44, 0x30, 0x0f, 0x06,
    0x03, 0x55, 0x1d, 0x13, 0x01, 0x01, 0xff, 0x04, 0x05, 0x30, 0x03, 0x01, 0x01, 0xff, 0x30, 0x3a,
    0x06, 0x03, 0x55, 0x1d, 0x1f, 0x04, 0x33, 0x30, 0x31, 0x30, 0x2f, 0xa0, 0x2d, 0xa0, 0x2b, 0x86,
    0x29, 0x68, 0x74, 0x74, 0x70, 0x73, 0x3a, 0x2f, 0x2f, 0x6b, 0x64, 0x73, 0x69, 0x6e, 0x74, 0x66,
    0x2e, 0x61, 0x6d, 0x64, 0x2e, 0x63, 0x6f, 0x6d, 0x2f, 0x76, 0x63, 0x65, 0x6b, 0x2f, 0x76, 0x31,
    0x2f, 0x54, 0x75, 0x72, 0x69, 0x6e, 0x2f, 0x63, 0x72, 0x6c, 0x30, 0x46, 0x06, 0x09, 0x2a, 0x86,
    0x48, 0x86, 0xf7, 0x0d, 0x01, 0x01, 0x0a, 0x30, 0x39, 0xa0, 0x0f, 0x30, 0x0d, 0x06, 0x09, 0x60,
    0x86, 0x48, 0x01, 0x65, 0x03, 0x04, 0x02, 0x02, 0x05, 0x00, 0xa1, 0x1c, 0x30, 0x1a, 0x06, 0x09,
    0x2a, 0x86, 0x48, 0x86, 0xf7, 0x0d, 0x01, 0x01, 0x08, 0x30, 0x0d, 0x06, 0x09, 0x60, 0x86, 0x48,
    0x01, 0x65, 0x03, 0x04, 0x02, 0x02, 0x05, 0x00, 0xa2, 0x03, 0x02, 0x01, 0x30, 0xa3, 0x03, 0x02,
    0x01, 0x01, 0x03, 0x82, 0x02, 0x01, 0x00, 0x3f, 0x8b, 0xa3, 0x33, 0xe0, 0x81, 0x13, 0x30, 0xaf,
    0x18, 0x53, 0xf1, 0xf1, 0x3f, 0xb0, 0x5f, 0x7a, 0x3e, 0x62, 0xe1, 0xa5, 0xe1, 0x7a, 0x72, 0x68,
    0x4e, 0xe8, 0x83, 0x5f, 0x49, 0xea, 0xc7, 0x90, 0x83, 0x26, 0x6f, 0x44, 0x2e, 0x1b, 0x24, 0xc4,
    0x09, 0x09, 0xfe, 0x82, 0xc0, 0xd4, 0xef, 0x76, 0x52, 0x82, 0xf2, 0x6d, 0xf1, 0x64, 0xe2, 0x01,
    0x29, 0x28, 0x5b, 0x72, 0x7e, 0x25, 0x18, 0x7b, 0x1f, 0x4b, 0xa2, 0x06, 0x63, 0xe6, 0x2c, 0x74,
    0xb1, 0xbd, 0xaa, 0x7d, 0x24, 0xb2, 0xf4, 0x24, 0x67, 0x3a, 0x4b, 0x46, 0xa9, 0xfa, 0x5e, 0x97,
    0x87, 0xb7, 0x28, 0x08, 0x4b, 0x80, 0x5e, 0x67, 0xda, 0xa6, 0x6b, 0xab, 0x2a, 0xbf, 0xf0, 0x43,
    0xcf, 0x95, 0xdb, 0x52, 0x8c, 0x45, 0xe7, 0xef, 0xcb, 0x19, 0x32, 0x52, 0x25, 0x51, 0xc4, 0x0a,
    0x4a, 0x79, 0xcd, 0x09, 0x06, 0x55, 0x16, 0x99, 0x2d, 0x0d, 0xf0, 0xe2, 0x12, 0x21, 0x8d, 0xba,
    0x2b, 0x6e, 0xc7, 0x78, 0x21, 0x1d, 0x4a, 0xdc, 0x56, 0xec, 0x52, 0x6d, 0x97, 0x2b, 0x5c, 0x36,
    0xec, 0x6c, 0xc1, 0x7b, 0x34, 0x37, 0x5f, 0x2d, 0x45, 0x12, 0xf5, 0x38, 0xa3, 0xac, 0xbd, 0xf7,
    0x96, 0xb0, 0x97, 0x26, 0xce, 0xe6, 0xf2, 0x48, 0x20, 0x1b, 0x20, 0xae, 0xb2, 0x24, 0x50, 0x28,
    0x79, 0x62, 0xd4, 0x01, 0x2c, 0xc2, 0x20, 0x38, 0xc5, 0x4f, 0xbc, 0xc6, 0xc6, 0x6b, 0x07, 0x26,
    0x13, 0xa2, 0x98, 0x86, 0x62, 0xd6, 0xc9, 0x2b, 0xcb, 0x34, 0x50, 0x20, 0x97, 0xca, 0x5c, 0x8e,
    0xb8, 0xa4, 0xae, 0x6e, 0xf7, 0x40, 0x9c, 0xc0, 0xc9, 0xe4, 0x60, 0xc3, 0xd3, 0xe0, 0xd7, 0xe3,
    0xa2, 0xd2, 0x7e, 0xfe, 0xdf, 0x80, 0x63, 0x52, 0x1b, 0xe2, 0xce, 0x05, 0x67, 0x62, 0x7f, 0xb2,
    0xa8, 0x41, 0xff, 0x5c, 0x22, 0x12, 0x89, 0xb7, 0x11, 0xb1, 0x64, 0x29, 0xff, 0xb6, 0xf1, 0xe6,
    0xc0, 0xcc, 0xee, 0xe0, 0x99, 0xf1, 0xf0, 0xdd, 0xaf, 0x46, 0x74, 0xfe, 0xf0, 0x3a, 0x41, 0xaa,
    0x1c, 0x6d, 0x36, 0xf7, 0x57, 0x9a, 0xb6, 0x54, 0x7a, 0x54, 0x9e, 0x41, 0xa9, 0x31, 0xe1, 0xd8,
    0xcc, 0x2a, 0xf9, 0x93, 0x47, 0xc1, 0x9d, 0xdb, 0x91, 0x27, 0x0b, 0x84, 0x69, 0xa4, 0x29, 0x23,
    0x6e, 0x63, 0xf1, 0x63, 0x7c, 0xcf, 0x77, 0x55, 0xfb, 0xad, 0xa6, 0xa5, 0x4e, 0x7d, 0xf8, 0x10,
    0xe1, 0x7d, 0x0d, 0xe2, 0xec, 0x0b, 0xd2, 0x5f, 0xce, 0x40, 0xee, 0xa2, 0x3c, 0x69, 0x1d, 0x63,
    0x26, 0xdf, 0x4c, 0x0a, 0x9c, 0x3a, 0x36, 0xd2, 0x69, 0x43, 0x42, 0x4f, 0xf3, 0x28, 0x20, 0xda,
    0xd9, 0x97, 0x3e, 0x62, 0x3b, 0x6c, 0x4d, 0x90, 0xab, 0x4d, 0xbb, 0xdd, 0x80, 0x2b, 0xa4, 0x4c,
    0xa3, 0x59, 0x39, 0x45, 0x15, 0x95, 0x64, 0x6e, 0xfa, 0xc3, 0xbf, 0x3b, 0x0a, 0xe6, 0x4b, 0x6a,
    0x75, 0xea, 0xc7, 0x87, 0x4c, 0x8a, 0x87, 0x11, 0xb1, 0x35, 0x2e, 0x7b, 0x4f, 0xbf, 0x78, 0x24,
    0x09, 0xc1, 0xc6, 0x0d, 0x25, 0x00, 0x2b, 0x1f, 0x5c, 0xd0, 0x0a, 0x25, 0xf8, 0x38, 0xfd, 0xc6,
    0x96, 0xf6, 0x9e, 0x61, 0xaa, 0xa0, 0x37, 0x89, 0xe7, 0xd2, 0x5a, 0xe9, 0x11, 0x24, 0x1c, 0x27,
    0x70, 0xe5, 0x37, 0x6e, 0x5f, 0x2a, 0xaa, 0x32, 0xa7, 0xc3, 0xd4, 0x05, 0xf4, 0xfd, 0x00, 0xcd,
    0x75, 0xeb, 0xc2, 0x30, 0xa9, 0x56, 0x05, 0x10, 0x90, 0xec, 0x31, 0x65, 0xa2, 0x0d, 0xc7, 0xd5,
    0xaf, 0xab, 0xfe, 0x4b, 0x8c, 0x51, 0x9f, 0xc8, 0x8f, 0xdc, 0xb2, 0x2a, 0x54, 0xa0, 0x61, 0x93,
    0x09, 0xe1, 0x58, 0x0d, 0x28, 0x38, 0x13, 0x41, 0xd7, 0x2c, 0x00, 0xbd, 0x0c, 0x08, 0x43, 0x2b,
    0xce, 0x96, 0x9c, 0x33, 0x01, 0x6e, 0xb0,
];

/// The root certificate pinned for a generation.
#[verifier::opaque]
pub open spec fn pinned_ark(generation: ProcessorGeneration) -> Seq<u8> {
    match generation {
        ProcessorGeneration::Milan => MILAN_ARK@,
        ProcessorGeneration::Genoa => GENOA_ARK@,
        ProcessorGeneration::Turin => TURIN_ARK@,
    }
}

/// Hands out the root certificate pinned for a generation.
pub fn ark_for(generation: ProcessorGeneration) -> (ark: &'static [u8])
    ensures
        ark@ == pinned_ark(generation),
{
    reveal(pinned_ark);
    match generation {
        ProcessorGeneration::Milan => MILAN_ARK.as_slice(),
        ProcessorGeneration::Genoa => GENOA_ARK.as_slice(),
        ProcessorGeneration::Turin => TURIN_ARK.as_slice(),
    }
}

/// No two generations share a root certificate.
pub proof fn pinned_arks_differ(a: ProcessorGeneration, b: ProcessorGeneration)
    requires
        a != b,
    ensures
        pinned_ark(a) != pinned_ark(b),
{
    reveal(pinned_ark);
    assert(MILAN_ARK@[15] != GENOA_ARK@[15]);
    assert(MILAN_ARK@[15] != TURIN_ARK@[15]);
    assert(GENOA_ARK@[15] != TURIN_ARK@[15]);
}

} // verus!

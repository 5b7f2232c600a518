// Compiled terminfo fixtures: `rxvt`, `xterm` and `linux-16color`
// entries in the legacy 16-bit format, with the extended section.

static RXVT_INFO: [u8; 2048] = [
    26, 1, 46, 0, 38, 0, 15, 0, 110, 1, 219, 3, 114, 120, 118, 116,
    124, 114, 120, 118, 116, 32, 116, 101, 114, 109, 105, 110, 97, 108, 32, 101,
    109, 117, 108, 97, 116, 111, 114, 32, 40, 88, 32, 87, 105, 110, 100, 111,
    119, 32, 83, 121, 115, 116, 101, 109, 41, 0, 0, 1, 0, 0, 1, 1,
    0, 0, 1, 0, 0, 0, 0, 1, 1, 0, 0, 0, 0, 0, 1, 0,
    0, 0, 0, 0, 0, 0, 1, 0, 0, 0, 0, 0, 0, 0, 0, 1,
    80, 0, 8, 0, 24, 0, 255, 255, 255, 255, 255, 255, 255, 255, 255, 255,
    255, 255, 255, 255, 255, 255, 255, 255, 255, 255, 8, 0, 64, 0, 255, 255,
    0, 0, 2, 0, 4, 0, 21, 0, 26, 0, 34, 0, 38, 0, 42, 0,
    255, 255, 53, 0, 70, 0, 72, 0, 76, 0, 83, 0, 255, 255, 85, 0,
    92, 0, 255, 255, 96, 0, 255, 255, 255, 255, 100, 0, 255, 255, 255, 255,
    104, 0, 106, 0, 111, 0, 116, 0, 255, 255, 255, 255, 125, 0, 255, 255,
    255, 255, 130, 0, 135, 0, 140, 0, 255, 255, 145, 0, 147, 0, 152, 0,
    255, 255, 165, 0, 170, 0, 176, 0, 182, 0, 255, 255, 255, 255, 193, 0,
    207, 0, 255, 255, 255, 255, 241, 0, 245, 0, 255, 255, 249, 0, 255, 255,
    255, 255, 255, 255, 251, 0, 255, 255, 0, 1, 255, 255, 4, 1, 255, 255,
    255, 255, 9, 1, 15, 1, 21, 1, 27, 1, 33, 1, 39, 1, 45, 1,
    51, 1, 57, 1, 63, 1, 69, 1, 74, 1, 255, 255, 79, 1, 255, 255,
    83, 1, 88, 1, 93, 1, 255, 255, 255, 255, 255, 255, 97, 1, 101, 1,
    104, 1, 255, 255, 255, 255, 255, 255, 255, 255, 255, 255, 255, 255, 255, 255,
    255, 255, 255, 255, 255, 255, 255, 255, 255, 255, 255, 255, 255, 255, 255, 255,
    255, 255, 107, 1, 116, 1, 125, 1, 255, 255, 134, 1, 143, 1, 152, 1,
    255, 255, 161, 1, 255, 255, 255, 255, 255, 255, 255, 255, 255, 255, 255, 255,
    255, 255, 170, 1, 203, 1, 255, 255, 255, 255, 253, 1, 0, 2, 11, 2,
    14, 2, 16, 2, 19, 2, 86, 2, 255, 255, 89, 2, 255, 255, 255, 255,
    255, 255, 255, 255, 91, 2, 95, 2, 99, 2, 103, 2, 107, 2, 255, 255,
    255, 255, 111, 2, 255, 255, 162, 2, 255, 255, 255, 255, 255, 255, 255, 255,
    255, 255, 255, 255, 166, 2, 255, 255, 255, 255, 255, 255, 255, 255, 255, 255,
    255, 255, 255, 255, 255, 255, 173, 2, 178, 2, 255, 255, 182, 2, 255, 255,
    255, 255, 255, 255, 255, 255, 255, 255, 255, 255, 255, 255, 255, 255, 255, 255,
    255, 255, 255, 255, 255, 255, 255, 255, 255, 255, 255, 255, 255, 255, 255, 255,
    255, 255, 255, 255, 255, 255, 255, 255, 255, 255, 255, 255, 187, 2, 255, 255,
    192, 2, 197, 2, 255, 255, 255, 255, 255, 255, 255, 255, 202, 2, 255, 255,
    207, 2, 255, 255, 255, 255, 211, 2, 255, 255, 216, 2, 255, 255, 255, 255,
    255, 255, 221, 2, 255, 255, 255, 255, 255, 255, 255, 255, 255, 255, 225, 2,
    231, 2, 237, 2, 243, 2, 249, 2, 255, 2, 5, 3, 11, 3, 17, 3,
    23, 3, 29, 3, 35, 3, 41, 3, 47, 3, 53, 3, 59, 3, 65, 3,
    71, 3, 77, 3, 83, 3, 89, 3, 95, 3, 101, 3, 107, 3, 113, 3,
    119, 3, 125, 3, 131, 3, 137, 3, 143, 3, 149, 3, 155, 3, 161, 3,
    167, 3, 255, 255, 255, 255, 255, 255, 255, 255, 255, 255, 255, 255, 255, 255,
    255, 255, 255, 255, 255, 255, 255, 255, 255, 255, 255, 255, 255, 255, 255, 255,
    255, 255, 255, 255, 255, 255, 255, 255, 173, 3, 255, 255, 255, 255, 255, 255,
    255, 255, 255, 255, 255, 255, 255, 255, 255, 255, 255, 255, 255, 255, 255, 255,
    255, 255, 255, 255, 255, 255, 255, 255, 255, 255, 255, 255, 255, 255, 255, 255,
    255, 255, 255, 255, 255, 255, 255, 255, 255, 255, 255, 255, 255, 255, 255, 255,
    178, 3, 255, 255, 255, 255, 255, 255, 255, 255, 255, 255, 255, 255, 255, 255,
    255, 255, 255, 255, 255, 255, 255, 255, 255, 255, 255, 255, 255, 255, 255, 255,
    255, 255, 255, 255, 255, 255, 255, 255, 255, 255, 255, 255, 255, 255, 255, 255,
    255, 255, 255, 255, 255, 255, 255, 255, 255, 255, 255, 255, 255, 255, 255, 255,
    255, 255, 255, 255, 255, 255, 255, 255, 255, 255, 255, 255, 255, 255, 255, 255,
    255, 255, 255, 255, 255, 255, 255, 255, 255, 255, 255, 255, 255, 255, 255, 255,
    255, 255, 255, 255, 255, 255, 255, 255, 255, 255, 255, 255, 255, 255, 255, 255,
    255, 255, 255, 255, 187, 3, 255, 255, 255, 255, 255, 255, 191, 3, 201, 3,
    255, 255, 255, 255, 255, 255, 211, 3, 215, 3, 7, 0, 13, 0, 27, 91,
    37, 105, 37, 112, 49, 37, 100, 59, 37, 112, 50, 37, 100, 114, 0, 27,
    91, 51, 103, 0, 27, 91, 72, 27, 91, 50, 74, 0, 27, 91, 75, 0,
    27, 91, 74, 0, 27, 91, 37, 105, 37, 112, 49, 37, 100, 71, 0, 27,
    91, 37, 105, 37, 112, 49, 37, 100, 59, 37, 112, 50, 37, 100, 72, 0,
    10, 0, 27, 91, 72, 0, 27, 91, 63, 50, 53, 108, 0, 8, 0, 27,
    91, 63, 50, 53, 104, 0, 27, 91, 67, 0, 27, 91, 65, 0, 27, 91,
    77, 0, 14, 0, 27, 91, 53, 109, 0, 27, 91, 49, 109, 0, 27, 55,
    27, 91, 63, 52, 55, 104, 0, 27, 91, 52, 104, 0, 27, 91, 55, 109,
    0, 27, 91, 55, 109, 0, 27, 91, 52, 109, 0, 15, 0, 27, 91, 109,
    15, 0, 27, 91, 50, 74, 27, 91, 63, 52, 55, 108, 27, 56, 0, 27,
    91, 52, 108, 0, 27, 91, 50, 55, 109, 0, 27, 91, 50, 52, 109, 0,
    27, 91, 63, 53, 104, 27, 91, 63, 53, 108, 0, 27, 91, 63, 52, 55,
    108, 27, 61, 27, 91, 63, 49, 108, 0, 27, 91, 114, 27, 91, 109, 27,
    91, 50, 74, 27, 91, 72, 27, 91, 63, 55, 104, 27, 91, 63, 49, 59,
    51, 59, 52, 59, 54, 108, 27, 91, 52, 108, 0, 27, 91, 64, 0, 27,
    91, 76, 0, 8, 0, 27, 91, 51, 126, 0, 27, 91, 66, 0, 27, 91,
    56, 94, 0, 27, 91, 49, 49, 126, 0, 27, 91, 50, 49, 126, 0, 27,
    91, 49, 50, 126, 0, 27, 91, 49, 51, 126, 0, 27, 91, 49, 52, 126,
    0, 27, 91, 49, 53, 126, 0, 27, 91, 49, 55, 126, 0, 27, 91, 49,
    56, 126, 0, 27, 91, 49, 57, 126, 0, 27, 91, 50, 48, 126, 0, 27,
    91, 55, 126, 0, 27, 91, 50, 126, 0, 27, 91, 68, 0, 27, 91, 54,
    126, 0, 27, 91, 53, 126, 0, 27, 91, 67, 0, 27, 91, 65, 0, 27,
    62, 0, 27, 61, 0, 27, 91, 37, 112, 49, 37, 100, 77, 0, 27, 91,
    37, 112, 49, 37, 100, 66, 0, 27, 91, 37, 112, 49, 37, 100, 64, 0,
    27, 91, 37, 112, 49, 37, 100, 76, 0, 27, 91, 37, 112, 49, 37, 100,
    68, 0, 27, 91, 37, 112, 49, 37, 100, 67, 0, 27, 91, 37, 112, 49,
    37, 100, 65, 0, 27, 62, 27, 91, 49, 59, 51, 59, 52, 59, 53, 59,
    54, 108, 27, 91, 63, 55, 104, 27, 91, 109, 27, 91, 114, 27, 91, 50,
    74, 27, 91, 72, 0, 27, 91, 114, 27, 91, 109, 27, 91, 50, 74, 27,
    91, 72, 27, 91, 63, 55, 104, 27, 91, 63, 49, 59, 51, 59, 52, 59,
    54, 108, 27, 91, 52, 108, 27, 61, 27, 91, 63, 49, 48, 48, 48, 108,
    27, 91, 63, 50, 53, 104, 0, 27, 56, 0, 27, 91, 37, 105, 37, 112,
    49, 37, 100, 100, 0, 27, 55, 0, 10, 0, 27, 77, 0, 27, 91, 48,
    37, 63, 37, 112, 54, 37, 116, 59, 49, 37, 59, 37, 63, 37, 112, 50,
    37, 116, 59, 52, 37, 59, 37, 63, 37, 112, 49, 37, 112, 51, 37, 124,
    37, 116, 59, 55, 37, 59, 37, 63, 37, 112, 52, 37, 116, 59, 53, 37,
    59, 109, 37, 63, 37, 112, 57, 37, 116, 14, 37, 101, 15, 37, 59, 0,
    27, 72, 0, 9, 0, 27, 79, 119, 0, 27, 79, 121, 0, 27, 79, 117,
    0, 27, 79, 113, 0, 27, 79, 115, 0, 96, 96, 97, 97, 102, 102, 103,
    103, 106, 106, 107, 107, 108, 108, 109, 109, 110, 110, 111, 111, 112, 112, 113,
    113, 114, 114, 115, 115, 116, 116, 117, 117, 118, 118, 119, 119, 120, 120, 121,
    121, 122, 122, 123, 123, 124, 124, 125, 125, 126, 126, 0, 27, 91, 90, 0,
    27, 40, 66, 27, 41, 48, 0, 27, 91, 56, 126, 0, 27, 79, 77, 0,
    27, 91, 49, 126, 0, 27, 91, 51, 36, 0, 27, 91, 52, 126, 0, 27,
    91, 56, 36, 0, 27, 91, 55, 36, 0, 27, 91, 100, 0, 27, 91, 54,
    36, 0, 27, 91, 53, 36, 0, 27, 91, 99, 0, 27, 91, 50, 51, 126,
    0, 27, 91, 50, 52, 126, 0, 27, 91, 50, 53, 126, 0, 27, 91, 50,
    54, 126, 0, 27, 91, 50, 56, 126, 0, 27, 91, 50, 57, 126, 0, 27,
    91, 51, 49, 126, 0, 27, 91, 51, 50, 126, 0, 27, 91, 51, 51, 126,
    0, 27, 91, 51, 52, 126, 0, 27, 91, 50, 51, 36, 0, 27, 91, 50,
    52, 36, 0, 27, 91, 49, 49, 94, 0, 27, 91, 49, 50, 94, 0, 27,
    91, 49, 51, 94, 0, 27, 91, 49, 52, 94, 0, 27, 91, 49, 53, 94,
    0, 27, 91, 49, 55, 94, 0, 27, 91, 49, 56, 94, 0, 27, 91, 49,
    57, 94, 0, 27, 91, 50, 48, 94, 0, 27, 91, 50, 49, 94, 0, 27,
    91, 50, 51, 94, 0, 27, 91, 50, 52, 94, 0, 27, 91, 50, 53, 94,
    0, 27, 91, 50, 54, 94, 0, 27, 91, 50, 56, 94, 0, 27, 91, 50,
    57, 94, 0, 27, 91, 51, 49, 94, 0, 27, 91, 51, 50, 94, 0, 27,
    91, 51, 51, 94, 0, 27, 91, 51, 52, 94, 0, 27, 91, 50, 51, 64,
    0, 27, 91, 50, 52, 64, 0, 27, 91, 49, 75, 0, 27, 91, 51, 57,
    59, 52, 57, 109, 0, 27, 91, 77, 0, 27, 91, 51, 37, 112, 49, 37,
    100, 109, 0, 27, 91, 52, 37, 112, 49, 37, 100, 109, 0, 27, 40, 66,
    0, 27, 40, 48, 0, 0, 2, 0, 0, 0, 14, 0, 30, 0, 130, 0,
    1, 1, 0, 0, 4, 0, 8, 0, 12, 0, 16, 0, 20, 0, 24, 0,
    28, 0, 32, 0, 36, 0, 40, 0, 44, 0, 48, 0, 52, 0, 0, 0,
    3, 0, 6, 0, 10, 0, 15, 0, 20, 0, 26, 0, 32, 0, 38, 0,
    44, 0, 48, 0, 53, 0, 58, 0, 62, 0, 66, 0, 70, 0, 27, 91,
    98, 0, 27, 79, 98, 0, 27, 79, 66, 0, 27, 79, 100, 0, 27, 79,
    68, 0, 27, 79, 99, 0, 27, 79, 67, 0, 27, 91, 97, 0, 27, 79,
    97, 0, 27, 79, 65, 0, 27, 79, 120, 0, 27, 79, 116, 0, 27, 79,
    118, 0, 27, 79, 114, 0, 65, 88, 0, 88, 84, 0, 107, 68, 78, 0,
    107, 68, 78, 53, 0, 107, 68, 78, 54, 0, 107, 76, 70, 84, 53, 0,
    107, 76, 70, 84, 54, 0, 107, 82, 73, 84, 53, 0, 107, 82, 73, 84,
    54, 0, 107, 85, 80, 0, 107, 85, 80, 53, 0, 107, 85, 80, 54, 0,
    107, 97, 50, 0, 107, 98, 49, 0, 107, 98, 51, 0, 107, 99, 50, 0,
];

static XTERM_INFO: [u8; 3816] = [
    26, 1, 48, 0, 38, 0, 15, 0, 157, 1, 13, 6, 120, 116, 101, 114,
    109, 124, 120, 116, 101, 114, 109, 32, 116, 101, 114, 109, 105, 110, 97, 108,
    32, 101, 109, 117, 108, 97, 116, 111, 114, 32, 40, 88, 32, 87, 105, 110,
    100, 111, 119, 32, 83, 121, 115, 116, 101, 109, 41, 0, 0, 1, 0, 0,
    1, 0, 0, 0, 1, 0, 0, 0, 0, 1, 1, 0, 0, 0, 0, 0,
    0, 0, 1, 0, 0, 1, 0, 0, 1, 0, 0, 0, 0, 0, 0, 0,
    0, 1, 80, 0, 8, 0, 24, 0, 255, 255, 255, 255, 255, 255, 255, 255,
    255, 255, 255, 255, 255, 255, 255, 255, 255, 255, 255, 255, 8, 0, 64, 0,
    0, 0, 4, 0, 6, 0, 8, 0, 25, 0, 30, 0, 38, 0, 42, 0,
    46, 0, 255, 255, 57, 0, 74, 0, 76, 0, 80, 0, 87, 0, 255, 255,
    89, 0, 102, 0, 255, 255, 106, 0, 110, 0, 120, 0, 124, 0, 255, 255,
    255, 255, 128, 0, 132, 0, 137, 0, 142, 0, 255, 255, 160, 0, 165, 0,
    170, 0, 255, 255, 175, 0, 180, 0, 185, 0, 190, 0, 199, 0, 203, 0,
    210, 0, 255, 255, 228, 0, 233, 0, 239, 0, 245, 0, 255, 255, 255, 255,
    255, 255, 7, 1, 255, 255, 255, 255, 255, 255, 25, 1, 255, 255, 29, 1,
    255, 255, 255, 255, 255, 255, 31, 1, 255, 255, 36, 1, 255, 255, 255, 255,
    255, 255, 255, 255, 40, 1, 44, 1, 50, 1, 54, 1, 58, 1, 62, 1,
    68, 1, 74, 1, 80, 1, 86, 1, 92, 1, 96, 1, 255, 255, 101, 1,
    255, 255, 105, 1, 110, 1, 115, 1, 119, 1, 126, 1, 255, 255, 133, 1,
    137, 1, 145, 1, 255, 255, 255, 255, 255, 255, 255, 255, 255, 255, 255, 255,
    255, 255, 255, 255, 255, 255, 255, 255, 255, 255, 153, 1, 162, 1, 255, 255,
    255, 255, 171, 1, 180, 1, 189, 1, 198, 1, 207, 1, 216, 1, 225, 1,
    234, 1, 243, 1, 252, 1, 255, 255, 255, 255, 255, 255, 5, 2, 9, 2,
    14, 2, 19, 2, 39, 2, 42, 2, 255, 255, 255, 255, 60, 2, 63, 2,
    74, 2, 77, 2, 79, 2, 82, 2, 175, 2, 255, 255, 178, 2, 255, 255,
    255, 255, 255, 255, 255, 255, 180, 2, 184, 2, 188, 2, 192, 2, 196, 2,
    255, 255, 255, 255, 200, 2, 255, 255, 253, 2, 255, 255, 255, 255, 1, 3,
    7, 3, 255, 255, 255, 255, 255, 255, 255, 255, 255, 255, 13, 3, 255, 255,
    255, 255, 255, 255, 255, 255, 255, 255, 17, 3, 21, 3, 255, 255, 255, 255,
    255, 255, 255, 255, 255, 255, 255, 255, 255, 255, 255, 255, 255, 255, 255, 255,
    255, 255, 255, 255, 255, 255, 255, 255, 255, 255, 255, 255, 255, 255, 255, 255,
    255, 255, 255, 255, 255, 255, 255, 255, 255, 255, 255, 255, 255, 255, 25, 3,
    255, 255, 255, 255, 32, 3, 255, 255, 255, 255, 255, 255, 255, 255, 39, 3,
    46, 3, 53, 3, 255, 255, 255, 255, 60, 3, 255, 255, 67, 3, 255, 255,
    255, 255, 255, 255, 74, 3, 255, 255, 255, 255, 255, 255, 255, 255, 255, 255,
    81, 3, 87, 3, 93, 3, 100, 3, 107, 3, 114, 3, 121, 3, 129, 3,
    137, 3, 145, 3, 153, 3, 161, 3, 169, 3, 177, 3, 185, 3, 192, 3,
    199, 3, 206, 3, 213, 3, 221, 3, 229, 3, 237, 3, 245, 3, 253, 3,
    5, 4, 13, 4, 21, 4, 28, 4, 35, 4, 42, 4, 49, 4, 57, 4,
    65, 4, 73, 4, 81, 4, 89, 4, 97, 4, 105, 4, 113, 4, 120, 4,
    127, 4, 134, 4, 141, 4, 149, 4, 157, 4, 165, 4, 173, 4, 181, 4,
    189, 4, 197, 4, 205, 4, 212, 4, 219, 4, 226, 4, 231, 4, 255, 255,
    255, 255, 255, 255, 255, 255, 255, 255, 255, 255, 255, 255, 255, 255, 255, 255,
    255, 255, 255, 255, 255, 255, 255, 255, 255, 255, 255, 255, 255, 255, 255, 255,
    255, 255, 255, 255, 255, 255, 255, 255, 255, 255, 238, 4, 249, 4, 254, 4,
    17, 5, 21, 5, 255, 255, 255, 255, 255, 255, 255, 255, 30, 5, 100, 5,
    255, 255, 255, 255, 255, 255, 255, 255, 255, 255, 255, 255, 255, 255, 170, 5,
    255, 255, 255, 255, 255, 255, 255, 255, 255, 255, 255, 255, 255, 255, 255, 255,
    255, 255, 175, 5, 255, 255, 255, 255, 255, 255, 255, 255, 255, 255, 255, 255,
    255, 255, 255, 255, 255, 255, 255, 255, 255, 255, 255, 255, 255, 255, 255, 255,
    255, 255, 255, 255, 255, 255, 255, 255, 255, 255, 255, 255, 181, 5, 198, 5,
    255, 255, 255, 255, 255, 255, 255, 255, 255, 255, 255, 255, 255, 255, 255, 255,
    255, 255, 255, 255, 255, 255, 216, 5, 255, 255, 255, 255, 255, 255, 220, 5,
    230, 5, 255, 255, 255, 255, 255, 255, 255, 255, 255, 255, 255, 255, 255, 255,
    240, 5, 255, 255, 255, 255, 255, 255, 255, 255, 255, 255, 255, 255, 255, 255,
    255, 255, 255, 255, 255, 255, 255, 255, 255, 255, 255, 255, 255, 255, 255, 255,
    255, 255, 255, 255, 255, 255, 255, 255, 255, 255, 255, 255, 255, 255, 255, 255,
    255, 255, 255, 255, 255, 255, 255, 255, 255, 255, 255, 255, 255, 255, 255, 255,
    255, 255, 255, 255, 255, 255, 255, 255, 255, 255, 255, 255, 255, 255, 255, 255,
    255, 255, 255, 255, 255, 255, 7, 6, 10, 6, 27, 91, 90, 0, 7, 0,
    13, 0, 27, 91, 37, 105, 37, 112, 49, 37, 100, 59, 37, 112, 50, 37,
    100, 114, 0, 27, 91, 51, 103, 0, 27, 91, 72, 27, 91, 50, 74, 0,
    27, 91, 75, 0, 27, 91, 74, 0, 27, 91, 37, 105, 37, 112, 49, 37,
    100, 71, 0, 27, 91, 37, 105, 37, 112, 49, 37, 100, 59, 37, 112, 50,
    37, 100, 72, 0, 10, 0, 27, 91, 72, 0, 27, 91, 63, 50, 53, 108,
    0, 8, 0, 27, 91, 63, 49, 50, 108, 27, 91, 63, 50, 53, 104, 0,
    27, 91, 67, 0, 27, 91, 65, 0, 27, 91, 63, 49, 50, 59, 50, 53,
    104, 0, 27, 91, 80, 0, 27, 91, 77, 0, 27, 40, 48, 0, 27, 91,
    53, 109, 0, 27, 91, 49, 109, 0, 27, 91, 63, 49, 48, 52, 57, 104,
    27, 91, 50, 50, 59, 48, 59, 48, 116, 0, 27, 91, 50, 109, 0, 27,
    91, 52, 104, 0, 27, 91, 56, 109, 0, 27, 91, 55, 109, 0, 27, 91,
    55, 109, 0, 27, 91, 52, 109, 0, 27, 91, 37, 112, 49, 37, 100, 88,
    0, 27, 40, 66, 0, 27, 40, 66, 27, 91, 109, 0, 27, 91, 63, 49,
    48, 52, 57, 108, 27, 91, 50, 51, 59, 48, 59, 48, 116, 0, 27, 91,
    52, 108, 0, 27, 91, 50, 55, 109, 0, 27, 91, 50, 52, 109, 0, 27,
    91, 63, 53, 104, 36, 60, 49, 48, 48, 47, 62, 27, 91, 63, 53, 108,
    0, 27, 91, 33, 112, 27, 91, 63, 51, 59, 52, 108, 27, 91, 52, 108,
    27, 62, 0, 27, 91, 76, 0, 127, 0, 27, 91, 51, 126, 0, 27, 79,
    66, 0, 27, 79, 80, 0, 27, 91, 50, 49, 126, 0, 27, 79, 81, 0,
    27, 79, 82, 0, 27, 79, 83, 0, 27, 91, 49, 53, 126, 0, 27, 91,
    49, 55, 126, 0, 27, 91, 49, 56, 126, 0, 27, 91, 49, 57, 126, 0,
    27, 91, 50, 48, 126, 0, 27, 79, 72, 0, 27, 91, 50, 126, 0, 27,
    79, 68, 0, 27, 91, 54, 126, 0, 27, 91, 53, 126, 0, 27, 79, 67,
    0, 27, 91, 49, 59, 50, 66, 0, 27, 91, 49, 59, 50, 65, 0, 27,
    79, 65, 0, 27, 91, 63, 49, 108, 27, 62, 0, 27, 91, 63, 49, 104,
    27, 61, 0, 27, 91, 63, 49, 48, 51, 52, 108, 0, 27, 91, 63, 49,
    48, 51, 52, 104, 0, 27, 91, 37, 112, 49, 37, 100, 80, 0, 27, 91,
    37, 112, 49, 37, 100, 77, 0, 27, 91, 37, 112, 49, 37, 100, 66, 0,
    27, 91, 37, 112, 49, 37, 100, 64, 0, 27, 91, 37, 112, 49, 37, 100,
    83, 0, 27, 91, 37, 112, 49, 37, 100, 76, 0, 27, 91, 37, 112, 49,
    37, 100, 68, 0, 27, 91, 37, 112, 49, 37, 100, 67, 0, 27, 91, 37,
    112, 49, 37, 100, 84, 0, 27, 91, 37, 112, 49, 37, 100, 65, 0, 27,
    91, 105, 0, 27, 91, 52, 105, 0, 27, 91, 53, 105, 0, 37, 112, 49,
    37, 99, 27, 91, 37, 112, 50, 37, 123, 49, 125, 37, 45, 37, 100, 98,
    0, 27, 99, 0, 27, 91, 33, 112, 27, 91, 63, 51, 59, 52, 108, 27,
    91, 52, 108, 27, 62, 0, 27, 56, 0, 27, 91, 37, 105, 37, 112, 49,
    37, 100, 100, 0, 27, 55, 0, 10, 0, 27, 77, 0, 37, 63, 37, 112,
    57, 37, 116, 27, 40, 48, 37, 101, 27, 40, 66, 37, 59, 27, 91, 48,
    37, 63, 37, 112, 54, 37, 116, 59, 49, 37, 59, 37, 63, 37, 112, 53,
    37, 116, 59, 50, 37, 59, 37, 63, 37, 112, 50, 37, 116, 59, 52, 37,
    59, 37, 63, 37, 112, 49, 37, 112, 51, 37, 124, 37, 116, 59, 55, 37,
    59, 37, 63, 37, 112, 52, 37, 116, 59, 53, 37, 59, 37, 63, 37, 112,
    55, 37, 116, 59, 56, 37, 59, 109, 0, 27, 72, 0, 9, 0, 27, 79,
    119, 0, 27, 79, 121, 0, 27, 79, 117, 0, 27, 79, 113, 0, 27, 79,
    115, 0, 96, 96, 97, 97, 102, 102, 103, 103, 105, 105, 106, 106, 107, 107,
    108, 108, 109, 109, 110, 110, 111, 111, 112, 112, 113, 113, 114, 114, 115, 115,
    116, 116, 117, 117, 118, 118, 119, 119, 120, 120, 121, 121, 122, 122, 123, 123,
    124, 124, 125, 125, 126, 126, 0, 27, 91, 90, 0, 27, 91, 63, 55, 104,
    0, 27, 91, 63, 55, 108, 0, 27, 79, 69, 0, 27, 79, 70, 0, 27,
    79, 77, 0, 27, 91, 51, 59, 50, 126, 0, 27, 91, 49, 59, 50, 70,
    0, 27, 91, 49, 59, 50, 72, 0, 27, 91, 50, 59, 50, 126, 0, 27,
    91, 49, 59, 50, 68, 0, 27, 91, 54, 59, 50, 126, 0, 27, 91, 53,
    59, 50, 126, 0, 27, 91, 49, 59, 50, 67, 0, 27, 91, 50, 51, 126,
    0, 27, 91, 50, 52, 126, 0, 27, 91, 49, 59, 50, 80, 0, 27, 91,
    49, 59, 50, 81, 0, 27, 91, 49, 59, 50, 82, 0, 27, 91, 49, 59,
    50, 83, 0, 27, 91, 49, 53, 59, 50, 126, 0, 27, 91, 49, 55, 59,
    50, 126, 0, 27, 91, 49, 56, 59, 50, 126, 0, 27, 91, 49, 57, 59,
    50, 126, 0, 27, 91, 50, 48, 59, 50, 126, 0, 27, 91, 50, 49, 59,
    50, 126, 0, 27, 91, 50, 51, 59, 50, 126, 0, 27, 91, 50, 52, 59,
    50, 126, 0, 27, 91, 49, 59, 53, 80, 0, 27, 91, 49, 59, 53, 81,
    0, 27, 91, 49, 59, 53, 82, 0, 27, 91, 49, 59, 53, 83, 0, 27,
    91, 49, 53, 59, 53, 126, 0, 27, 91, 49, 55, 59, 53, 126, 0, 27,
    91, 49, 56, 59, 53, 126, 0, 27, 91, 49, 57, 59, 53, 126, 0, 27,
    91, 50, 48, 59, 53, 126, 0, 27, 91, 50, 49, 59, 53, 126, 0, 27,
    91, 50, 51, 59, 53, 126, 0, 27, 91, 50, 52, 59, 53, 126, 0, 27,
    91, 49, 59, 54, 80, 0, 27, 91, 49, 59, 54, 81, 0, 27, 91, 49,
    59, 54, 82, 0, 27, 91, 49, 59, 54, 83, 0, 27, 91, 49, 53, 59,
    54, 126, 0, 27, 91, 49, 55, 59, 54, 126, 0, 27, 91, 49, 56, 59,
    54, 126, 0, 27, 91, 49, 57, 59, 54, 126, 0, 27, 91, 50, 48, 59,
    54, 126, 0, 27, 91, 50, 49, 59, 54, 126, 0, 27, 91, 50, 51, 59,
    54, 126, 0, 27, 91, 50, 52, 59, 54, 126, 0, 27, 91, 49, 59, 51,
    80, 0, 27, 91, 49, 59, 51, 81, 0, 27, 91, 49, 59, 51, 82, 0,
    27, 91, 49, 59, 51, 83, 0, 27, 91, 49, 53, 59, 51, 126, 0, 27,
    91, 49, 55, 59, 51, 126, 0, 27, 91, 49, 56, 59, 51, 126, 0, 27,
    91, 49, 57, 59, 51, 126, 0, 27, 91, 50, 48, 59, 51, 126, 0, 27,
    91, 50, 49, 59, 51, 126, 0, 27, 91, 50, 51, 59, 51, 126, 0, 27,
    91, 50, 52, 59, 51, 126, 0, 27, 91, 49, 59, 52, 80, 0, 27, 91,
    49, 59, 52, 81, 0, 27, 91, 49, 59, 52, 82, 0, 27, 91, 49, 75,
    0, 27, 91, 63, 54, 57, 108, 0, 27, 91, 37, 105, 37, 100, 59, 37,
    100, 82, 0, 27, 91, 54, 110, 0, 27, 91, 63, 37, 91, 59, 48, 49,
    50, 51, 52, 53, 54, 55, 56, 57, 93, 99, 0, 27, 91, 99, 0, 27,
    91, 51, 57, 59, 52, 57, 109, 0, 27, 91, 51, 37, 63, 37, 112, 49,
    37, 123, 49, 125, 37, 61, 37, 116, 52, 37, 101, 37, 112, 49, 37, 123,
    51, 125, 37, 61, 37, 116, 54, 37, 101, 37, 112, 49, 37, 123, 52, 125,
    37, 61, 37, 116, 49, 37, 101, 37, 112, 49, 37, 123, 54, 125, 37, 61,
    37, 116, 51, 37, 101, 37, 112, 49, 37, 100, 37, 59, 109, 0, 27, 91,
    52, 37, 63, 37, 112, 49, 37, 123, 49, 125, 37, 61, 37, 116, 52, 37,
    101, 37, 112, 49, 37, 123, 51, 125, 37, 61, 37, 116, 54, 37, 101, 37,
    112, 49, 37, 123, 52, 125, 37, 61, 37, 116, 49, 37, 101, 37, 112, 49,
    37, 123, 54, 125, 37, 61, 37, 116, 51, 37, 101, 37, 112, 49, 37, 100,
    37, 59, 109, 0, 27, 91, 51, 109, 0, 27, 91, 50, 51, 109, 0, 27,
    91, 63, 54, 57, 104, 27, 91, 37, 105, 37, 112, 49, 37, 100, 115, 0,
    27, 91, 63, 54, 57, 104, 27, 91, 37, 105, 59, 37, 112, 49, 37, 100,
    115, 0, 27, 91, 60, 0, 27, 91, 51, 37, 112, 49, 37, 100, 109, 0,
    27, 91, 52, 37, 112, 49, 37, 100, 109, 0, 27, 91, 63, 54, 57, 104,
    27, 91, 37, 105, 37, 112, 49, 37, 100, 59, 37, 112, 50, 37, 100, 115,
    0, 27, 108, 0, 27, 109, 0, 0, 2, 0, 0, 0, 78, 0, 158, 0,
    216, 3, 1, 1, 0, 0, 9, 0, 18, 0, 25, 0, 37, 0, 42, 0,
    60, 0, 67, 0, 74, 0, 80, 0, 90, 0, 122, 0, 129, 0, 136, 0,
    143, 0, 150, 0, 157, 0, 164, 0, 171, 0, 178, 0, 185, 0, 192, 0,
    199, 0, 206, 0, 213, 0, 220, 0, 227, 0, 234, 0, 241, 0, 248, 0,
    255, 0, 6, 1, 13, 1, 20, 1, 27, 1, 34, 1, 41, 1, 48, 1,
    55, 1, 62, 1, 69, 1, 76, 1, 83, 1, 90, 1, 97, 1, 104, 1,
    111, 1, 118, 1, 125, 1, 132, 1, 139, 1, 146, 1, 153, 1, 160, 1,
    167, 1, 174, 1, 181, 1, 188, 1, 195, 1, 202, 1, 209, 1, 216, 1,
    223, 1, 230, 1, 234, 1, 238, 1, 242, 1, 246, 1, 250, 1, 254, 1,
    2, 2, 6, 2, 10, 2, 14, 2, 18, 2, 22, 2, 28, 2, 33, 2,
    0, 0, 3, 0, 6, 0, 9, 0, 12, 0, 15, 0, 18, 0, 21, 0,
    24, 0, 27, 0, 30, 0, 33, 0, 36, 0, 39, 0, 44, 0, 49, 0,
    54, 0, 59, 0, 64, 0, 68, 0, 73, 0, 78, 0, 83, 0, 88, 0,
    93, 0, 99, 0, 105, 0, 111, 0, 117, 0, 123, 0, 129, 0, 135, 0,
    141, 0, 147, 0, 153, 0, 158, 0, 163, 0, 168, 0, 173, 0, 178, 0,
    184, 0, 190, 0, 196, 0, 202, 0, 208, 0, 214, 0, 220, 0, 226, 0,
    232, 0, 238, 0, 244, 0, 250, 0, 0, 1, 6, 1, 12, 1, 18, 1,
    24, 1, 30, 1, 36, 1, 42, 1, 46, 1, 51, 1, 56, 1, 61, 1,
    66, 1, 71, 1, 75, 1, 79, 1, 83, 1, 87, 1, 91, 1, 97, 1,
    103, 1, 109, 1, 115, 1, 121, 1, 127, 1, 133, 1, 138, 1, 143, 1,
    27, 91, 63, 50, 48, 48, 52, 108, 0, 27, 91, 63, 50, 48, 48, 52,
    104, 0, 27, 93, 49, 49, 50, 7, 0, 27, 93, 49, 50, 59, 37, 112,
    49, 37, 115, 7, 0, 27, 91, 51, 74, 0, 27, 93, 53, 50, 59, 37,
    112, 49, 37, 115, 59, 37, 112, 50, 37, 115, 7, 0, 27, 91, 50, 48,
    49, 126, 0, 27, 91, 50, 48, 48, 126, 0, 27, 91, 50, 32, 113, 0,
    27, 91, 37, 112, 49, 37, 100, 32, 113, 0, 27, 91, 63, 49, 48, 48,
    54, 59, 49, 48, 48, 48, 37, 63, 37, 112, 49, 37, 123, 49, 125, 37,
    61, 37, 116, 104, 37, 101, 108, 37, 59, 0, 27, 91, 51, 59, 51, 126,
    0, 27, 91, 51, 59, 52, 126, 0, 27, 91, 51, 59, 53, 126, 0, 27,
    91, 51, 59, 54, 126, 0, 27, 91, 51, 59, 55, 126, 0, 27, 91, 49,
    59, 50, 66, 0, 27, 91, 49, 59, 51, 66, 0, 27, 91, 49, 59, 52,
    66, 0, 27, 91, 49, 59, 53, 66, 0, 27, 91, 49, 59, 54, 66, 0,
    27, 91, 49, 59, 55, 66, 0, 27, 91, 49, 59, 51, 70, 0, 27, 91,
    49, 59, 52, 70, 0, 27, 91, 49, 59, 53, 70, 0, 27, 91, 49, 59,
    54, 70, 0, 27, 91, 49, 59, 55, 70, 0, 27, 91, 49, 59, 51, 72,
    0, 27, 91, 49, 59, 52, 72, 0, 27, 91, 49, 59, 53, 72, 0, 27,
    91, 49, 59, 54, 72, 0, 27, 91, 49, 59, 55, 72, 0, 27, 91, 50,
    59, 51, 126, 0, 27, 91, 50, 59, 52, 126, 0, 27, 91, 50, 59, 53,
    126, 0, 27, 91, 50, 59, 54, 126, 0, 27, 91, 50, 59, 55, 126, 0,
    27, 91, 49, 59, 51, 68, 0, 27, 91, 49, 59, 52, 68, 0, 27, 91,
    49, 59, 53, 68, 0, 27, 91, 49, 59, 54, 68, 0, 27, 91, 49, 59,
    55, 68, 0, 27, 91, 54, 59, 51, 126, 0, 27, 91, 54, 59, 52, 126,
    0, 27, 91, 54, 59, 53, 126, 0, 27, 91, 54, 59, 54, 126, 0, 27,
    91, 54, 59, 55, 126, 0, 27, 91, 53, 59, 51, 126, 0, 27, 91, 53,
    59, 52, 126, 0, 27, 91, 53, 59, 53, 126, 0, 27, 91, 53, 59, 54,
    126, 0, 27, 91, 53, 59, 55, 126, 0, 27, 91, 49, 59, 51, 67, 0,
    27, 91, 49, 59, 52, 67, 0, 27, 91, 49, 59, 53, 67, 0, 27, 91,
    49, 59, 54, 67, 0, 27, 91, 49, 59, 55, 67, 0, 27, 91, 49, 59,
    50, 65, 0, 27, 91, 49, 59, 51, 65, 0, 27, 91, 49, 59, 52, 65,
    0, 27, 91, 49, 59, 53, 65, 0, 27, 91, 49, 59, 54, 65, 0, 27,
    91, 49, 59, 55, 65, 0, 27, 79, 120, 0, 27, 79, 116, 0, 27, 79,
    118, 0, 27, 79, 114, 0, 27, 79, 69, 0, 27, 79, 107, 0, 27, 79,
    108, 0, 27, 79, 111, 0, 27, 79, 110, 0, 27, 79, 106, 0, 27, 79,
    109, 0, 27, 79, 112, 0, 27, 91, 50, 57, 109, 0, 27, 91, 57, 109,
    0, 27, 91, 60, 37, 105, 37, 112, 51, 37, 100, 59, 37, 112, 49, 37,
    100, 59, 37, 112, 50, 37, 100, 59, 37, 63, 37, 112, 52, 37, 116, 77,
    37, 101, 109, 37, 59, 0, 65, 88, 0, 88, 84, 0, 66, 68, 0, 66,
    69, 0, 67, 114, 0, 67, 115, 0, 69, 51, 0, 77, 115, 0, 80, 69,
    0, 80, 83, 0, 83, 101, 0, 83, 115, 0, 88, 77, 0, 107, 68, 67,
    51, 0, 107, 68, 67, 52, 0, 107, 68, 67, 53, 0, 107, 68, 67, 54,
    0, 107, 68, 67, 55, 0, 107, 68, 78, 0, 107, 68, 78, 51, 0, 107,
    68, 78, 52, 0, 107, 68, 78, 53, 0, 107, 68, 78, 54, 0, 107, 68,
    78, 55, 0, 107, 69, 78, 68, 51, 0, 107, 69, 78, 68, 52, 0, 107,
    69, 78, 68, 53, 0, 107, 69, 78, 68, 54, 0, 107, 69, 78, 68, 55,
    0, 107, 72, 79, 77, 51, 0, 107, 72, 79, 77, 52, 0, 107, 72, 79,
    77, 53, 0, 107, 72, 79, 77, 54, 0, 107, 72, 79, 77, 55, 0, 107,
    73, 67, 51, 0, 107, 73, 67, 52, 0, 107, 73, 67, 53, 0, 107, 73,
    67, 54, 0, 107, 73, 67, 55, 0, 107, 76, 70, 84, 51, 0, 107, 76,
    70, 84, 52, 0, 107, 76, 70, 84, 53, 0, 107, 76, 70, 84, 54, 0,
    107, 76, 70, 84, 55, 0, 107, 78, 88, 84, 51, 0, 107, 78, 88, 84,
    52, 0, 107, 78, 88, 84, 53, 0, 107, 78, 88, 84, 54, 0, 107, 78,
    88, 84, 55, 0, 107, 80, 82, 86, 51, 0, 107, 80, 82, 86, 52, 0,
    107, 80, 82, 86, 53, 0, 107, 80, 82, 86, 54, 0, 107, 80, 82, 86,
    55, 0, 107, 82, 73, 84, 51, 0, 107, 82, 73, 84, 52, 0, 107, 82,
    73, 84, 53, 0, 107, 82, 73, 84, 54, 0, 107, 82, 73, 84, 55, 0,
    107, 85, 80, 0, 107, 85, 80, 51, 0, 107, 85, 80, 52, 0, 107, 85,
    80, 53, 0, 107, 85, 80, 54, 0, 107, 85, 80, 55, 0, 107, 97, 50,
    0, 107, 98, 49, 0, 107, 98, 51, 0, 107, 99, 50, 0, 107, 112, 53,
    0, 107, 112, 65, 68, 68, 0, 107, 112, 67, 77, 65, 0, 107, 112, 68,
    73, 86, 0, 107, 112, 68, 79, 84, 0, 107, 112, 77, 85, 76, 0, 107,
    112, 83, 85, 66, 0, 107, 112, 90, 82, 79, 0, 114, 109, 120, 120, 0,
    115, 109, 120, 120, 0, 120, 109, 0,
];

static LINUX_16COLOR_INFO: [u8; 1762] = [
    26, 1, 43, 0, 29, 0, 16, 0, 125, 1, 66, 3, 108, 105, 110, 117,
    120, 45, 49, 54, 99, 111, 108, 111, 114, 124, 108, 105, 110, 117, 120, 32,
    99, 111, 110, 115, 111, 108, 101, 32, 119, 105, 116, 104, 32, 49, 54, 32,
    99, 111, 108, 111, 114, 115, 0, 0, 1, 0, 0, 1, 1, 0, 0, 0,
    0, 0, 0, 0, 1, 1, 0, 0, 0, 0, 0, 1, 0, 0, 0, 0,
    0, 0, 1, 1, 255, 255, 8, 0, 255, 255, 255, 255, 255, 255, 255, 255,
    255, 255, 255, 255, 255, 255, 255, 255, 255, 255, 255, 255, 255, 255, 16, 0,
    64, 0, 18, 0, 255, 255, 0, 0, 2, 0, 4, 0, 21, 0, 26, 0,
    33, 0, 37, 0, 41, 0, 255, 255, 52, 0, 69, 0, 71, 0, 75, 0,
    87, 0, 255, 255, 89, 0, 101, 0, 255, 255, 105, 0, 109, 0, 121, 0,
    125, 0, 255, 255, 255, 255, 129, 0, 131, 0, 136, 0, 255, 255, 255, 255,
    141, 0, 146, 0, 255, 255, 255, 255, 151, 0, 156, 0, 161, 0, 166, 0,
    175, 0, 177, 0, 255, 255, 255, 255, 182, 0, 187, 0, 193, 0, 199, 0,
    255, 255, 255, 255, 255, 255, 255, 255, 255, 255, 255, 255, 217, 0, 221, 0,
    255, 255, 225, 0, 255, 255, 255, 255, 255, 255, 227, 0, 255, 255, 232, 0,
    255, 255, 255, 255, 255, 255, 255, 255, 236, 0, 241, 0, 247, 0, 252, 0,
    1, 1, 6, 1, 11, 1, 17, 1, 23, 1, 29, 1, 35, 1, 40, 1,
    255, 255, 45, 1, 255, 255, 49, 1, 54, 1, 59, 1, 255, 255, 255, 255,
    255, 255, 63, 1, 255, 255, 255, 255, 255, 255, 255, 255, 255, 255, 255, 255,
    255, 255, 255, 255, 255, 255, 255, 255, 255, 255, 255, 255, 255, 255, 255, 255,
    255, 255, 67, 1, 255, 255, 70, 1, 79, 1, 88, 1, 97, 1, 255, 255,
    106, 1, 115, 1, 124, 1, 255, 255, 133, 1, 255, 255, 255, 255, 255, 255,
    255, 255, 255, 255, 255, 255, 255, 255, 142, 1, 255, 255, 255, 255, 255, 255,
    148, 1, 151, 1, 162, 1, 165, 1, 167, 1, 170, 1, 1, 2, 255, 255,
    4, 2, 255, 255, 255, 255, 255, 255, 255, 255, 255, 255, 255, 255, 6, 2,
    255, 255, 255, 255, 255, 255, 255, 255, 10, 2, 255, 255, 75, 2, 255, 255,
    255, 255, 78, 2, 84, 2, 255, 255, 255, 255, 90, 2, 255, 255, 255, 255,
    255, 255, 255, 255, 255, 255, 255, 255, 255, 255, 255, 255, 94, 2, 255, 255,
    255, 255, 255, 255, 255, 255, 255, 255, 255, 255, 255, 255, 255, 255, 255, 255,
    255, 255, 255, 255, 255, 255, 255, 255, 255, 255, 255, 255, 255, 255, 255, 255,
    255, 255, 255, 255, 99, 2, 255, 255, 255, 255, 255, 255, 255, 255, 255, 255,
    255, 255, 255, 255, 255, 255, 255, 255, 255, 255, 255, 255, 255, 255, 255, 255,
    255, 255, 255, 255, 255, 255, 255, 255, 255, 255, 255, 255, 255, 255, 255, 255,
    255, 255, 255, 255, 255, 255, 255, 255, 255, 255, 255, 255, 255, 255, 255, 255,
    255, 255, 255, 255, 101, 2, 107, 2, 113, 2, 119, 2, 125, 2, 131, 2,
    137, 2, 143, 2, 149, 2, 155, 2, 255, 255, 255, 255, 255, 255, 255, 255,
    255, 255, 255, 255, 255, 255, 255, 255, 255, 255, 255, 255, 255, 255, 255, 255,
    255, 255, 255, 255, 255, 255, 255, 255, 255, 255, 255, 255, 255, 255, 255, 255,
    255, 255, 255, 255, 255, 255, 255, 255, 255, 255, 255, 255, 255, 255, 255, 255,
    255, 255, 255, 255, 255, 255, 255, 255, 255, 255, 255, 255, 255, 255, 255, 255,
    255, 255, 255, 255, 255, 255, 255, 255, 255, 255, 255, 255, 255, 255, 161, 2,
    255, 255, 255, 255, 255, 255, 255, 255, 255, 255, 255, 255, 255, 255, 255, 255,
    255, 255, 255, 255, 255, 255, 255, 255, 255, 255, 255, 255, 255, 255, 255, 255,
    255, 255, 255, 255, 255, 255, 255, 255, 255, 255, 255, 255, 255, 255, 166, 2,
    177, 2, 182, 2, 188, 2, 192, 2, 201, 2, 205, 2, 255, 255, 255, 255,
    255, 255, 255, 255, 255, 255, 255, 255, 255, 255, 255, 255, 255, 255, 255, 255,
    255, 255, 255, 255, 255, 255, 255, 255, 255, 255, 255, 255, 255, 255, 255, 255,
    255, 255, 255, 255, 255, 255, 255, 255, 255, 255, 255, 255, 255, 255, 255, 255,
    255, 255, 255, 255, 255, 255, 255, 255, 255, 255, 255, 255, 255, 255, 255, 255,
    255, 255, 255, 255, 255, 255, 255, 255, 255, 255, 255, 255, 255, 255, 255, 255,
    255, 255, 255, 255, 255, 255, 255, 255, 255, 255, 255, 255, 255, 255, 255, 255,
    255, 255, 255, 255, 255, 255, 255, 255, 255, 255, 30, 3, 255, 255, 255, 255,
    255, 255, 34, 3, 44, 3, 255, 255, 255, 255, 255, 255, 255, 255, 255, 255,
    255, 255, 255, 255, 255, 255, 255, 255, 255, 255, 255, 255, 255, 255, 255, 255,
    255, 255, 255, 255, 255, 255, 255, 255, 255, 255, 54, 3, 60, 3, 7, 0,
    13, 0, 27, 91, 37, 105, 37, 112, 49, 37, 100, 59, 37, 112, 50, 37,
    100, 114, 0, 27, 91, 51, 103, 0, 27, 91, 72, 27, 91, 74, 0, 27,
    91, 75, 0, 27, 91, 74, 0, 27, 91, 37, 105, 37, 112, 49, 37, 100,
    71, 0, 27, 91, 37, 105, 37, 112, 49, 37, 100, 59, 37, 112, 50, 37,
    100, 72, 0, 10, 0, 27, 91, 72, 0, 27, 91, 63, 50, 53, 108, 27,
    91, 63, 49, 99, 0, 8, 0, 27, 91, 63, 50, 53, 104, 27, 91, 63,
    48, 99, 0, 27, 91, 67, 0, 27, 91, 65, 0, 27, 91, 63, 50, 53,
    104, 27, 91, 63, 56, 99, 0, 27, 91, 80, 0, 27, 91, 77, 0, 14,
    0, 27, 91, 53, 109, 0, 27, 91, 49, 109, 0, 27, 91, 50, 109, 0,
    27, 91, 52, 104, 0, 27, 91, 55, 109, 0, 27, 91, 55, 109, 0, 27,
    91, 52, 109, 0, 27, 91, 37, 112, 49, 37, 100, 88, 0, 15, 0, 27,
    91, 109, 15, 0, 27, 91, 52, 108, 0, 27, 91, 50, 55, 109, 0, 27,
    91, 50, 52, 109, 0, 27, 91, 63, 53, 104, 36, 60, 50, 48, 48, 47,
    62, 27, 91, 63, 53, 108, 0, 27, 91, 64, 0, 27, 91, 76, 0, 127,
    0, 27, 91, 51, 126, 0, 27, 91, 66, 0, 27, 91, 91, 65, 0, 27,
    91, 50, 49, 126, 0, 27, 91, 91, 66, 0, 27, 91, 91, 67, 0, 27,
    91, 91, 68, 0, 27, 91, 91, 69, 0, 27, 91, 49, 55, 126, 0, 27,
    91, 49, 56, 126, 0, 27, 91, 49, 57, 126, 0, 27, 91, 50, 48, 126,
    0, 27, 91, 49, 126, 0, 27, 91, 50, 126, 0, 27, 91, 68, 0, 27,
    91, 54, 126, 0, 27, 91, 53, 126, 0, 27, 91, 67, 0, 27, 91, 65,
    0, 13, 10, 0, 27, 91, 37, 112, 49, 37, 100, 80, 0, 27, 91, 37,
    112, 49, 37, 100, 77, 0, 27, 91, 37, 112, 49, 37, 100, 66, 0, 27,
    91, 37, 112, 49, 37, 100, 64, 0, 27, 91, 37, 112, 49, 37, 100, 76,
    0, 27, 91, 37, 112, 49, 37, 100, 68, 0, 27, 91, 37, 112, 49, 37,
    100, 67, 0, 27, 91, 37, 112, 49, 37, 100, 65, 0, 27, 99, 27, 93,
    82, 0, 27, 56, 0, 27, 91, 37, 105, 37, 112, 49, 37, 100, 100, 0,
    27, 55, 0, 10, 0, 27, 77, 0, 27, 91, 48, 59, 49, 48, 37, 63,
    37, 112, 49, 37, 116, 59, 55, 37, 59, 37, 63, 37, 112, 50, 37, 116,
    59, 52, 37, 59, 37, 63, 37, 112, 51, 37, 116, 59, 55, 37, 59, 37,
    63, 37, 112, 52, 37, 116, 59, 53, 37, 59, 37, 63, 37, 112, 53, 37,
    116, 59, 50, 37, 59, 37, 63, 37, 112, 54, 37, 116, 59, 49, 37, 59,
    109, 37, 63, 37, 112, 57, 37, 116, 14, 37, 101, 15, 37, 59, 0, 27,
    72, 0, 9, 0, 27, 91, 71, 0, 43, 43, 44, 44, 45, 45, 46, 46,
    48, 48, 96, 96, 97, 97, 102, 102, 103, 103, 104, 104, 105, 105, 106, 106,
    107, 107, 108, 108, 109, 109, 110, 110, 111, 111, 112, 112, 113, 113, 114, 114,
    115, 115, 116, 116, 117, 117, 118, 118, 119, 119, 120, 120, 121, 121, 122, 122,
    123, 123, 124, 124, 125, 125, 126, 126, 0, 27, 9, 0, 27, 91, 63, 55,
    104, 0, 27, 91, 63, 55, 108, 0, 27, 41, 48, 0, 27, 91, 52, 126,
    0, 26, 0, 27, 91, 50, 51, 126, 0, 27, 91, 50, 52, 126, 0, 27,
    91, 50, 53, 126, 0, 27, 91, 50, 54, 126, 0, 27, 91, 50, 56, 126,
    0, 27, 91, 50, 57, 126, 0, 27, 91, 51, 49, 126, 0, 27, 91, 51,
    50, 126, 0, 27, 91, 51, 51, 126, 0, 27, 91, 51, 52, 126, 0, 27,
    91, 49, 75, 0, 27, 91, 37, 105, 37, 100, 59, 37, 100, 82, 0, 27,
    91, 54, 110, 0, 27, 91, 63, 54, 99, 0, 27, 91, 99, 0, 27, 91,
    51, 57, 59, 52, 57, 109, 0, 27, 93, 82, 0, 27, 93, 80, 37, 112,
    49, 37, 120, 37, 112, 50, 37, 123, 50, 53, 53, 125, 37, 42, 37, 123,
    49, 48, 48, 48, 125, 37, 47, 37, 48, 50, 120, 37, 112, 51, 37, 123,
    50, 53, 53, 125, 37, 42, 37, 123, 49, 48, 48, 48, 125, 37, 47, 37,
    48, 50, 120, 37, 112, 52, 37, 123, 50, 53, 53, 125, 37, 42, 37, 123,
    49, 48, 48, 48, 125, 37, 47, 37, 48, 50, 120, 0, 27, 91, 77, 0,
    27, 91, 51, 37, 112, 49, 37, 100, 109, 0, 27, 91, 52, 37, 112, 49,
    37, 100, 109, 0, 27, 91, 49, 49, 109, 0, 27, 91, 49, 48, 109, 0,
    1, 0, 1, 0, 2, 0, 6, 0, 24, 0, 1, 0, 1, 0, 0, 0,
    5, 0, 0, 0, 3, 0, 6, 0, 9, 0, 27, 91, 51, 74, 0, 27,
    91, 90, 0, 65, 88, 0, 85, 56, 0, 69, 51, 0, 107, 99, 98, 116,
    50, 0,
];

use nixterm::terminfo::fields::BooleanField;
use nixterm::terminfo::fields::NumericField;
use nixterm::terminfo::fields::StringField;
use nixterm::terminfo::fields::PREDEFINED_BOOLEANS_COUNT;
use nixterm::terminfo::fields::PREDEFINED_NUMERICS_COUNT;
use nixterm::terminfo::fields::PREDEFINED_STRINGS_COUNT;
use nixterm::terminfo::ErrorKind;
use nixterm::terminfo::TermInfo;
use nixterm::terminfo::TermInfoBuf;

#[test]
fn names() {
    let rxvt = TermInfo::parse(&RXVT_INFO).unwrap();

    let names = rxvt.names();
    assert_eq!(names[0], b"rxvt".to_vec());
    assert_eq!(
        names,
        vec![
            b"rxvt".to_vec(),
            b"rxvt terminal emulator (X Window System)".to_vec()
        ]
    );
}

#[test]
fn terminfo_lookup_string() {
    let rxvt = TermInfo::parse(&RXVT_INFO).unwrap();
    let xterm = TermInfo::parse(&XTERM_INFO).unwrap();
    let l16c = TermInfo::parse(&LINUX_16COLOR_INFO).unwrap();

    assert_eq!(rxvt.string(StringField::KeyDown), Some("\u{1b}[B".as_bytes()));
    assert_eq!(rxvt.string(StringField::KeyBackspace), Some("\u{8}".as_bytes()));
    assert_eq!(rxvt.string(StringField::ZeroMotion), None);
    assert_eq!(rxvt.string(StringField::Bell), Some("\u{7}".as_bytes()));

    assert_eq!(xterm.string(StringField::Newline), None);
    assert_eq!(xterm.string(StringField::MetaOff), Some("\u{1b}[?1034l".as_bytes()));
    assert_eq!(xterm.string(StringField::KeyEnter), Some("\u{1b}OM".as_bytes()));
    assert_eq!(xterm.string(StringField::LinefeedIfNotLf), None);

    assert_eq!(l16c.string(StringField::LabF3), None);
    assert_eq!(l16c.string(StringField::InsertLine), Some("\u{1b}[L".as_bytes()));
    assert_eq!(l16c.string(StringField::GetMouse), None);
    assert_eq!(l16c.string(StringField::LinefeedIfNotLf), None);
}

#[test]
fn terminfo_lookup_bool() {
    let rxvt = TermInfo::parse(&RXVT_INFO).unwrap();
    let xterm = TermInfo::parse(&XTERM_INFO).unwrap();
    let l16c = TermInfo::parse(&LINUX_16COLOR_INFO).unwrap();

    assert_eq!(rxvt.boolean(BooleanField::LinefeedIsNewline), false);
    assert_eq!(rxvt.boolean(BooleanField::AutoRightMargin), true);

    assert_eq!(xterm.boolean(BooleanField::AutoLeftMargin), false);
    assert_eq!(xterm.boolean(BooleanField::LinefeedIsNewline), false);

    assert_eq!(l16c.boolean(BooleanField::HardCursor), false);
    assert_eq!(l16c.boolean(BooleanField::AutoRightMargin), true);
}

#[test]
fn terminfo_lookup_number() {
    let rxvt = TermInfo::parse(&RXVT_INFO).unwrap();
    let xterm = TermInfo::parse(&XTERM_INFO).unwrap();
    let l16c = TermInfo::parse(&LINUX_16COLOR_INFO).unwrap();

    assert_eq!(rxvt.number(NumericField::Columns), Some(80));
    assert_eq!(rxvt.number(NumericField::Buttons), None);

    assert_eq!(xterm.number(NumericField::WideCharSize), None);
    assert_eq!(xterm.number(NumericField::MaxColors), Some(8));

    assert_eq!(l16c.number(NumericField::BitImageEntwining), None);
    assert_eq!(l16c.number(NumericField::MaxColors), Some(16));
}

#[test]
fn terminfo_lookup_ext_string() {
    let xterm = TermInfo::parse(&XTERM_INFO).unwrap();

    assert_eq!(xterm.has_ext(), true);
    assert_eq!(xterm.ext_string("kUP7"), Some("\u{1b}[1;7A".as_bytes()));
    assert_eq!(xterm.ext_string("kUP8"), None);
}

#[test]
fn terminfo_lookup_ext_bool() {
    let rxvt = TermInfo::parse(&RXVT_INFO).unwrap();

    assert_eq!(rxvt.has_ext(), true);
    assert_eq!(rxvt.ext_boolean("XM"), false);
    assert_eq!(rxvt.ext_boolean("G0"), false);
    assert_eq!(rxvt.ext_boolean("XT"), true);
    assert_eq!(rxvt.ext_boolean("kUP"), false);
}

#[test]
fn terminfo_lookup_ext_number() {
    let l16c = TermInfo::parse(&LINUX_16COLOR_INFO).unwrap();

    assert_eq!(l16c.has_ext(), true);
    assert_eq!(l16c.ext_number("U8"), Some(1));
}

#[test]
fn from_terminfo() {
    let rxvt = TermInfo::parse(&RXVT_INFO).unwrap();
    let xterm = TermInfo::parse(&XTERM_INFO).unwrap();
    let l16c = TermInfo::parse(&LINUX_16COLOR_INFO).unwrap();

    let rxvt_buf = TermInfoBuf::from_terminfo(&rxvt);
    let xterm_buf = TermInfoBuf::from_terminfo(&xterm);
    let l16c_buf = TermInfoBuf::from_terminfo(&l16c);

    for i in 0..PREDEFINED_BOOLEANS_COUNT {
        let field = BooleanField::from_index(i).unwrap();

        assert_eq!(rxvt.boolean(field), rxvt_buf.boolean(field));
        assert_eq!(xterm.boolean(field), xterm_buf.boolean(field));
        assert_eq!(l16c.boolean(field), l16c_buf.boolean(field));
    }

    for i in 0..PREDEFINED_NUMERICS_COUNT {
        let field = NumericField::from_index(i).unwrap();

        assert_eq!(rxvt.number(field).map(u32::from), rxvt_buf.number(field));
        assert_eq!(xterm.number(field).map(u32::from), xterm_buf.number(field));
        assert_eq!(l16c.number(field).map(u32::from), l16c_buf.number(field));
    }

    for i in 0..PREDEFINED_STRINGS_COUNT {
        let field = StringField::from_index(i).unwrap();

        assert_eq!(rxvt.string(field).map(<[u8]>::to_vec), rxvt_buf.string(field));
        assert_eq!(xterm.string(field).map(<[u8]>::to_vec), xterm_buf.string(field));
        assert_eq!(l16c.string(field).map(<[u8]>::to_vec), l16c_buf.string(field));
    }
}

#[test]
fn terminfobuf_lookup_string() {
    let rxvt = TermInfoBuf::from_terminfo(&TermInfo::parse(&RXVT_INFO).unwrap());
    let xterm = TermInfoBuf::from_terminfo(&TermInfo::parse(&XTERM_INFO).unwrap());
    let l16c = TermInfoBuf::from_terminfo(&TermInfo::parse(&LINUX_16COLOR_INFO).unwrap());

    assert_eq!(rxvt.string(StringField::KeyDown), Some(b"\x1b[B".to_vec()));
    assert_eq!(rxvt.string(StringField::KeyBackspace), Some(b"\x08".to_vec()));
    assert_eq!(rxvt.string(StringField::ZeroMotion), None);
    assert_eq!(rxvt.string(StringField::Bell), Some(b"\x07".to_vec()));

    assert_eq!(xterm.string(StringField::Newline), None);
    assert_eq!(xterm.string(StringField::MetaOff), Some(b"\x1b[?1034l".to_vec()));
    assert_eq!(xterm.string(StringField::KeyEnter), Some(b"\x1bOM".to_vec()));
    assert_eq!(xterm.string(StringField::LinefeedIfNotLf), None);

    assert_eq!(l16c.string(StringField::LabF3), None);
    assert_eq!(l16c.string(StringField::InsertLine), Some(b"\x1b[L".to_vec()));
    assert_eq!(l16c.string(StringField::GetMouse), None);
    assert_eq!(l16c.string(StringField::LinefeedIfNotLf), None);
}

#[test]
fn terminfobuf_lookup_bool() {
    let rxvt = TermInfoBuf::from_terminfo(&TermInfo::parse(&RXVT_INFO).unwrap());
    let xterm = TermInfoBuf::from_terminfo(&TermInfo::parse(&XTERM_INFO).unwrap());
    let l16c = TermInfoBuf::from_terminfo(&TermInfo::parse(&LINUX_16COLOR_INFO).unwrap());

    assert_eq!(rxvt.boolean(BooleanField::LinefeedIsNewline), false);
    assert_eq!(rxvt.boolean(BooleanField::AutoRightMargin), true);

    assert_eq!(xterm.boolean(BooleanField::AutoLeftMargin), false);
    assert_eq!(xterm.boolean(BooleanField::LinefeedIsNewline), false);

    assert_eq!(l16c.boolean(BooleanField::HardCursor), false);
    assert_eq!(l16c.boolean(BooleanField::AutoRightMargin), true);
}

#[test]
fn terminfobuf_lookup_number() {
    let rxvt = TermInfoBuf::from_terminfo(&TermInfo::parse(&RXVT_INFO).unwrap());
    let xterm = TermInfoBuf::from_terminfo(&TermInfo::parse(&XTERM_INFO).unwrap());
    let l16c = TermInfoBuf::from_terminfo(&TermInfo::parse(&LINUX_16COLOR_INFO).unwrap());

    assert_eq!(rxvt.number(NumericField::Columns), Some(80));
    assert_eq!(rxvt.number(NumericField::Buttons), None);

    assert_eq!(xterm.number(NumericField::WideCharSize), None);
    assert_eq!(xterm.number(NumericField::MaxColors), Some(8));

    assert_eq!(l16c.number(NumericField::BitImageEntwining), None);
    assert_eq!(l16c.number(NumericField::MaxColors), Some(16));
}

#[test]
fn set_string() {
    let mut rxvt = TermInfoBuf::from_terminfo(&TermInfo::parse(&RXVT_INFO).unwrap());
    let mut new = TermInfoBuf::new();

    rxvt.set_string(StringField::KeyF10, b"~~F10~~").unwrap();
    rxvt.set_string(StringField::ZeroMotion, b"Hello World").unwrap();

    new.set_string(StringField::WaitTone, b"Hi").unwrap();

    assert_eq!(rxvt.string(StringField::KeyF10), Some(b"~~F10~~".to_vec()));
    assert_eq!(rxvt.string(StringField::ZeroMotion), Some(b"Hello World".to_vec()));
    assert_eq!(new.string(StringField::WaitTone), Some(b"Hi".to_vec()));
}

#[test]
fn set_bool() {
    let mut rxvt = TermInfoBuf::from_terminfo(&TermInfo::parse(&RXVT_INFO).unwrap());
    let mut new = TermInfoBuf::new();

    rxvt.set_boolean(BooleanField::EatNewlineGlitch, true).unwrap();
    rxvt.set_boolean(BooleanField::TildeGlitch, true).unwrap();
    rxvt.set_boolean(BooleanField::AutoRightMargin, false).unwrap();

    new.set_boolean(BooleanField::XonXoff, true).unwrap();

    assert_eq!(rxvt.boolean(BooleanField::EatNewlineGlitch), true);
    assert_eq!(rxvt.boolean(BooleanField::TildeGlitch), true);
    assert_eq!(rxvt.boolean(BooleanField::AutoRightMargin), false);
    assert_eq!(new.boolean(BooleanField::XonXoff), true);
}

#[test]
fn set_number() {
    let mut rxvt = TermInfoBuf::from_terminfo(&TermInfo::parse(&RXVT_INFO).unwrap());
    let mut new = TermInfoBuf::new();

    rxvt.set_number(NumericField::WideCharSize, 2000).unwrap();
    rxvt.set_number(NumericField::Lines, 2).unwrap();

    new.set_number(NumericField::PrintRate, 5).unwrap();

    assert_eq!(rxvt.number(NumericField::WideCharSize), Some(2000));
    assert_eq!(rxvt.number(NumericField::Lines), Some(2));
    assert_eq!(new.number(NumericField::PrintRate), Some(5));
}

#[test]
fn terminfobuf_lookup_ext_string() {
    let xterm = TermInfoBuf::from_terminfo(&TermInfo::parse(&XTERM_INFO).unwrap());

    assert_eq!(xterm.has_ext(), true);
    assert_eq!(xterm.ext_string("kUP7"), Some(b"\x1b[1;7A".to_vec()));
    assert_eq!(xterm.ext_string("kUP8"), None);
}

#[test]
fn terminfobuf_lookup_ext_bool() {
    let rxvt = TermInfoBuf::from_terminfo(&TermInfo::parse(&RXVT_INFO).unwrap());

    assert_eq!(rxvt.has_ext(), true);
    assert_eq!(rxvt.ext_boolean("XM"), false);
    assert_eq!(rxvt.ext_boolean("G0"), false);
    assert_eq!(rxvt.ext_boolean("XT"), true);
    assert_eq!(rxvt.ext_boolean("kUP"), false);
}

#[test]
fn terminfobuf_lookup_ext_number() {
    let l16c = TermInfoBuf::from_terminfo(&TermInfo::parse(&LINUX_16COLOR_INFO).unwrap());

    assert_eq!(l16c.has_ext(), true);
    assert_eq!(l16c.ext_number("U8"), Some(1));
}

#[test]
fn magic_mismatch() {
    let mut bad = RXVT_INFO.to_vec();
    bad[0] = 0x1B;
    assert_eq!(TermInfo::parse(&bad).unwrap_err(), ErrorKind::InvalidMagicNumber);

    let zeros = [0u8; 64];
    assert_eq!(TermInfo::parse(&zeros).unwrap_err(), ErrorKind::InvalidMagicNumber);
}

#[test]
fn short_header() {
    let short = [0x1Au8, 0x01, 0x02];
    assert_eq!(TermInfo::parse(&short).unwrap_err(), ErrorKind::IncompleteTermInfoHeader);
}

#[test]
fn truncated_sections() {
    let cut = &RXVT_INFO[..40];
    assert_eq!(TermInfo::parse(cut).unwrap_err(), ErrorKind::IncompleteTermInfo);
}

#[test]
fn ext_index_is_repeatable() {
    let rxvt = TermInfoBuf::from_terminfo(&TermInfo::parse(&RXVT_INFO).unwrap());
    let first = rxvt.ext_index("XT");
    let second = rxvt.ext_index("XT");
    assert!(first.is_some());
    assert_eq!(first, second);
}

#[test]
fn set_ext_capabilities() {
    let mut new = TermInfoBuf::new();
    assert_eq!(new.has_ext(), false);

    new.set_ext_boolean("Fancy", true).unwrap();
    assert_eq!(new.has_ext(), true);
    assert_eq!(new.ext_boolean("Fancy"), true);
    assert_eq!(new.ext_boolean("Plain"), false);

    new.set_ext_boolean("Fancy", false).unwrap();
    assert_eq!(new.ext_boolean("Fancy"), false);

    let mut nums = TermInfoBuf::new();
    nums.set_ext_number("U8", 1).unwrap();
    assert_eq!(nums.ext_number("U8"), Some(1));
    nums.set_ext_number("U8", 7).unwrap();
    assert_eq!(nums.ext_number("U8"), Some(7));

    let mut strs = TermInfoBuf::new();
    strs.set_ext_string("kUP7", b"\x1b[1;7A").unwrap();
    assert_eq!(strs.ext_string("kUP7"), Some(b"\x1b[1;7A".to_vec()));
    strs.set_ext_string("kUP7", b"other").unwrap();
    assert_eq!(strs.ext_string("kUP7"), Some(b"other".to_vec()));
}

#[test]
fn grows_with_sentinels() {
    let mut new = TermInfoBuf::new();
    new.set_number(NumericField::MaxColors, 16).unwrap();
    assert_eq!(new.number(NumericField::Columns), None);
    assert_eq!(new.number(NumericField::Lines), None);
    assert_eq!(new.number(NumericField::MaxColors), Some(16));

    new.set_boolean(BooleanField::XonXoff, true).unwrap();
    assert_eq!(new.boolean(BooleanField::AutoLeftMargin), false);
    assert_eq!(new.boolean(BooleanField::XonXoff), true);
}

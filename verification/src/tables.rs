//! Tabulated curves.  The standard drag curves give the drag coefficient
//! against the Mach number for the eight reference projectile shapes, each
//! entry a pair of millionths: the Mach number, then the drag coefficient at
//! that Mach number.  The vapour curve gives the saturation pressure of water
//! vapour against temperature.

use vstd::prelude::*;

verus! {

/// Drag curve of the flat-based, blunt-nosed reference projectile.
pub const G1_TABLE: [(i64, i64); 79] = [
    (0, 262_900),
    (50_000, 255_800),
    (100_000, 248_700),
    (150_000, 241_300),
    (200_000, 234_400),
    (250_000, 227_800),
    (300_000, 221_400),
    (350_000, 215_500),
    (400_000, 210_400),
    (450_000, 206_100),
    (500_000, 203_200),
    (550_000, 202_000),
    (600_000, 203_400),
    (700_000, 216_500),
    (725_000, 223_000),
    (750_000, 231_300),
    (775_000, 241_700),
    (800_000, 254_600),
    (825_000, 270_600),
    (850_000, 290_100),
    (875_000, 313_600),
    (900_000, 341_500),
    (925_000, 373_400),
    (950_000, 408_400),
    (975_000, 444_800),
    (1_000_000, 480_500),
    (1_025_000, 513_600),
    (1_050_000, 542_700),
    (1_075_000, 567_700),
    (1_100_000, 588_300),
    (1_125_000, 605_300),
    (1_150_000, 619_100),
    (1_200_000, 639_300),
    (1_250_000, 651_800),
    (1_300_000, 658_900),
    (1_350_000, 662_100),
    (1_400_000, 662_500),
    (1_450_000, 660_700),
    (1_500_000, 657_300),
    (1_550_000, 652_800),
    (1_600_000, 647_400),
    (1_650_000, 641_300),
    (1_700_000, 634_700),
    (1_750_000, 628_000),
    (1_800_000, 621_000),
    (1_850_000, 614_100),
    (1_900_000, 607_200),
    (1_950_000, 600_300),
    (2_000_000, 593_400),
    (2_050_000, 586_700),
    (2_100_000, 580_400),
    (2_150_000, 574_300),
    (2_200_000, 568_500),
    (2_250_000, 563_000),
    (2_300_000, 557_700),
    (2_350_000, 552_700),
    (2_400_000, 548_100),
    (2_450_000, 543_800),
    (2_500_000, 539_700),
    (2_600_000, 532_500),
    (2_700_000, 526_400),
    (2_800_000, 521_100),
    (2_900_000, 516_800),
    (3_000_000, 513_300),
    (3_100_000, 510_500),
    (3_200_000, 508_400),
    (3_300_000, 506_700),
    (3_400_000, 505_400),
    (3_500_000, 504_000),
    (3_600_000, 503_000),
    (3_700_000, 502_200),
    (3_800_000, 501_600),
    (3_900_000, 501_000),
    (4_000_000, 500_600),
    (4_200_000, 499_800),
    (4_400_000, 499_500),
    (4_600_000, 499_200),
    (4_800_000, 499_000),
    (5_000_000, 498_800),
];

/// Drag curve of the Aberdeen J reference projectile.
pub const G2_TABLE: [(i64, i64); 85] = [
    (0, 230_300),
    (50_000, 229_800),
    (100_000, 228_700),
    (150_000, 227_100),
    (200_000, 225_100),
    (250_000, 222_700),
    (300_000, 219_600),
    (350_000, 215_600),
    (400_000, 210_700),
    (450_000, 204_800),
    (500_000, 198_000),
    (550_000, 190_500),
    (600_000, 182_800),
    (650_000, 175_800),
    (700_000, 170_200),
    (750_000, 166_900),
    (775_000, 166_400),
    (800_000, 166_700),
    (825_000, 168_200),
    (850_000, 171_100),
    (875_000, 176_100),
    (900_000, 183_100),
    (925_000, 200_400),
    (950_000, 258_900),
    (975_000, 349_200),
    (1_000_000, 398_300),
    (1_025_000, 407_500),
    (1_050_000, 410_300),
    (1_075_000, 411_400),
    (1_100_000, 410_600),
    (1_125_000, 408_900),
    (1_150_000, 406_800),
    (1_175_000, 404_600),
    (1_200_000, 402_100),
    (1_250_000, 396_600),
    (1_300_000, 390_400),
    (1_350_000, 383_500),
    (1_400_000, 375_900),
    (1_450_000, 367_800),
    (1_500_000, 359_400),
    (1_550_000, 351_200),
    (1_600_000, 343_200),
    (1_650_000, 335_600),
    (1_700_000, 328_200),
    (1_750_000, 321_300),
    (1_800_000, 314_900),
    (1_850_000, 308_900),
    (1_900_000, 303_300),
    (1_950_000, 298_200),
    (2_000_000, 293_300),
    (2_050_000, 288_900),
    (2_100_000, 284_600),
    (2_150_000, 280_600),
    (2_200_000, 276_800),
    (2_250_000, 273_100),
    (2_300_000, 269_600),
    (2_350_000, 266_300),
    (2_400_000, 263_200),
    (2_450_000, 260_200),
    (2_500_000, 257_200),
    (2_550_000, 254_300),
    (2_600_000, 251_500),
    (2_650_000, 248_700),
    (2_700_000, 246_000),
    (2_750_000, 243_300),
    (2_800_000, 240_800),
    (2_850_000, 238_200),
    (2_900_000, 235_700),
    (2_950_000, 233_300),
    (3_000_000, 230_900),
    (3_100_000, 226_200),
    (3_200_000, 221_700),
    (3_300_000, 217_300),
    (3_400_000, 213_200),
    (3_500_000, 209_100),
    (3_600_000, 205_200),
    (3_700_000, 201_400),
    (3_800_000, 197_800),
    (3_900_000, 194_400),
    (4_000_000, 191_200),
    (4_200_000, 185_100),
    (4_400_000, 179_400),
    (4_600_000, 174_100),
    (4_800_000, 169_300),
    (5_000_000, 164_800),
];

/// Drag curve of the short boat-tailed reference projectile with a tangent ogive.
pub const G5_TABLE: [(i64, i64); 76] = [
    (0, 171_000),
    (50_000, 171_900),
    (100_000, 172_700),
    (150_000, 173_200),
    (200_000, 173_400),
    (250_000, 173_000),
    (300_000, 171_800),
    (350_000, 169_600),
    (400_000, 166_800),
    (450_000, 163_700),
    (500_000, 160_300),
    (550_000, 156_600),
    (600_000, 152_900),
    (650_000, 149_700),
    (700_000, 147_300),
    (750_000, 146_300),
    (800_000, 148_900),
    (850_000, 158_300),
    (875_000, 167_200),
    (900_000, 181_500),
    (925_000, 205_100),
    (950_000, 241_300),
    (975_000, 288_400),
    (1_000_000, 337_900),
    (1_025_000, 378_500),
    (1_050_000, 403_200),
    (1_075_000, 414_700),
    (1_100_000, 420_100),
    (1_150_000, 427_800),
    (1_200_000, 433_800),
    (1_250_000, 437_300),
    (1_300_000, 439_200),
    (1_350_000, 440_300),
    (1_400_000, 440_600),
    (1_450_000, 440_100),
    (1_500_000, 438_600),
    (1_550_000, 436_200),
    (1_600_000, 432_800),
    (1_650_000, 428_600),
    (1_700_000, 423_700),
    (1_750_000, 418_200),
    (1_800_000, 412_100),
    (1_850_000, 405_700),
    (1_900_000, 399_100),
    (1_950_000, 392_600),
    (2_000_000, 386_100),
    (2_050_000, 380_000),
    (2_100_000, 374_100),
    (2_150_000, 368_400),
    (2_200_000, 363_000),
    (2_250_000, 357_800),
    (2_300_000, 352_900),
    (2_350_000, 348_100),
    (2_400_000, 343_500),
    (2_450_000, 339_100),
    (2_500_000, 334_900),
    (2_600_000, 326_900),
    (2_700_000, 319_400),
    (2_800_000, 312_500),
    (2_900_000, 306_000),
    (3_000_000, 299_900),
    (3_100_000, 294_200),
    (3_200_000, 288_900),
    (3_300_000, 283_800),
    (3_400_000, 279_000),
    (3_500_000, 274_500),
    (3_600_000, 270_300),
    (3_700_000, 266_200),
    (3_800_000, 262_400),
    (3_900_000, 258_800),
    (4_000_000, 255_300),
    (4_200_000, 248_800),
    (4_400_000, 242_900),
    (4_600_000, 237_600),
    (4_800_000, 232_600),
    (5_000_000, 228_000),
];

/// Drag curve of the flat-based reference projectile with a long secant ogive.
pub const G6_TABLE: [(i64, i64); 79] = [
    (0, 261_700),
    (50_000, 255_300),
    (100_000, 249_100),
    (150_000, 243_200),
    (200_000, 237_600),
    (250_000, 232_400),
    (300_000, 227_800),
    (350_000, 223_800),
    (400_000, 220_500),
    (450_000, 217_700),
    (500_000, 215_500),
    (550_000, 213_800),
    (600_000, 212_600),
    (650_000, 212_100),
    (700_000, 212_200),
    (750_000, 213_200),
    (800_000, 215_400),
    (850_000, 219_400),
    (875_000, 222_900),
    (900_000, 229_700),
    (925_000, 244_900),
    (950_000, 273_200),
    (975_000, 314_100),
    (1_000_000, 359_700),
    (1_025_000, 399_400),
    (1_050_000, 426_100),
    (1_075_000, 440_200),
    (1_100_000, 446_500),
    (1_125_000, 449_000),
    (1_150_000, 449_700),
    (1_175_000, 449_400),
    (1_200_000, 448_200),
    (1_225_000, 446_400),
    (1_250_000, 444_100),
    (1_300_000, 439_000),
    (1_350_000, 433_600),
    (1_400_000, 427_900),
    (1_450_000, 422_100),
    (1_500_000, 416_200),
    (1_550_000, 410_200),
    (1_600_000, 404_200),
    (1_650_000, 398_100),
    (1_700_000, 391_900),
    (1_750_000, 385_500),
    (1_800_000, 378_800),
    (1_850_000, 372_100),
    (1_900_000, 365_200),
    (1_950_000, 358_300),
    (2_000_000, 351_500),
    (2_050_000, 344_700),
    (2_100_000, 338_100),
    (2_150_000, 331_400),
    (2_200_000, 324_900),
    (2_250_000, 318_500),
    (2_300_000, 312_200),
    (2_350_000, 306_000),
    (2_400_000, 300_000),
    (2_450_000, 294_100),
    (2_500_000, 288_300),
    (2_600_000, 277_200),
    (2_700_000, 266_800),
    (2_800_000, 257_400),
    (2_900_000, 248_700),
    (3_000_000, 240_700),
    (3_100_000, 233_300),
    (3_200_000, 226_500),
    (3_300_000, 220_200),
    (3_400_000, 214_400),
    (3_500_000, 208_900),
    (3_600_000, 203_900),
    (3_700_000, 199_100),
    (3_800_000, 194_700),
    (3_900_000, 190_500),
    (4_000_000, 186_600),
    (4_200_000, 179_400),
    (4_400_000, 173_000),
    (4_600_000, 167_300),
    (4_800_000, 162_100),
    (5_000_000, 157_400),
];

/// Drag curve of the long boat-tailed reference projectile with a secant ogive.
pub const G7_TABLE: [(i64, i64); 84] = [
    (0, 119_800),
    (50_000, 119_700),
    (100_000, 119_600),
    (150_000, 119_400),
    (200_000, 119_300),
    (250_000, 119_400),
    (300_000, 119_400),
    (350_000, 119_400),
    (400_000, 119_300),
    (450_000, 119_300),
    (500_000, 119_400),
    (550_000, 119_300),
    (600_000, 119_400),
    (650_000, 119_700),
    (700_000, 120_200),
    (725_000, 120_700),
    (750_000, 121_500),
    (775_000, 122_600),
    (800_000, 124_200),
    (825_000, 126_600),
    (850_000, 130_600),
    (875_000, 136_800),
    (900_000, 146_400),
    (925_000, 166_000),
    (950_000, 205_400),
    (975_000, 299_300),
    (1_000_000, 380_300),
    (1_025_000, 401_500),
    (1_050_000, 404_300),
    (1_075_000, 403_400),
    (1_100_000, 401_400),
    (1_125_000, 398_700),
    (1_150_000, 395_500),
    (1_200_000, 388_400),
    (1_250_000, 381_000),
    (1_300_000, 373_200),
    (1_350_000, 365_700),
    (1_400_000, 358_000),
    (1_500_000, 344_000),
    (1_550_000, 337_600),
    (1_600_000, 331_500),
    (1_650_000, 326_000),
    (1_700_000, 320_900),
    (1_750_000, 316_000),
    (1_800_000, 311_700),
    (1_850_000, 307_800),
    (1_900_000, 304_200),
    (1_950_000, 301_000),
    (2_000_000, 298_000),
    (2_050_000, 295_100),
    (2_100_000, 292_200),
    (2_150_000, 289_200),
    (2_200_000, 286_400),
    (2_250_000, 283_500),
    (2_300_000, 280_700),
    (2_350_000, 277_900),
    (2_400_000, 275_200),
    (2_450_000, 272_500),
    (2_500_000, 269_700),
    (2_550_000, 267_000),
    (2_600_000, 264_300),
    (2_650_000, 261_500),
    (2_700_000, 258_800),
    (2_750_000, 256_100),
    (2_800_000, 253_300),
    (2_850_000, 250_600),
    (2_900_000, 247_900),
    (2_950_000, 245_100),
    (3_000_000, 242_400),
    (3_100_000, 236_800),
    (3_200_000, 231_300),
    (3_300_000, 225_800),
    (3_400_000, 220_500),
    (3_500_000, 215_400),
    (3_600_000, 210_600),
    (3_700_000, 206_000),
    (3_800_000, 201_700),
    (3_900_000, 197_500),
    (4_000_000, 193_500),
    (4_200_000, 186_100),
    (4_400_000, 179_300),
    (4_600_000, 173_000),
    (4_800_000, 167_200),
    (5_000_000, 161_800),
];

/// Drag curve of the flat-based reference projectile with a long secant ogive and a sharper nose.
pub const G8_TABLE: [(i64, i64); 78] = [
    (0, 210_500),
    (50_000, 210_500),
    (100_000, 210_400),
    (150_000, 210_400),
    (200_000, 210_300),
    (250_000, 210_300),
    (300_000, 210_300),
    (350_000, 210_300),
    (400_000, 210_300),
    (450_000, 210_200),
    (500_000, 210_200),
    (550_000, 210_200),
    (600_000, 210_200),
    (650_000, 210_200),
    (700_000, 210_300),
    (750_000, 210_300),
    (800_000, 210_400),
    (825_000, 210_400),
    (850_000, 210_500),
    (875_000, 210_600),
    (900_000, 210_900),
    (925_000, 218_300),
    (950_000, 257_100),
    (975_000, 335_800),
    (1_000_000, 406_800),
    (1_025_000, 437_800),
    (1_050_000, 447_600),
    (1_075_000, 449_300),
    (1_100_000, 447_700),
    (1_125_000, 445_000),
    (1_150_000, 441_900),
    (1_200_000, 435_300),
    (1_250_000, 428_300),
    (1_300_000, 420_800),
    (1_350_000, 413_300),
    (1_400_000, 405_900),
    (1_450_000, 398_600),
    (1_500_000, 391_500),
    (1_550_000, 384_500),
    (1_600_000, 377_700),
    (1_650_000, 371_000),
    (1_700_000, 364_500),
    (1_750_000, 358_100),
    (1_800_000, 351_900),
    (1_850_000, 345_800),
    (1_900_000, 340_000),
    (1_950_000, 334_300),
    (2_000_000, 328_800),
    (2_050_000, 323_400),
    (2_100_000, 318_200),
    (2_150_000, 313_100),
    (2_200_000, 308_100),
    (2_250_000, 303_200),
    (2_300_000, 298_300),
    (2_350_000, 293_700),
    (2_400_000, 289_100),
    (2_450_000, 284_500),
    (2_500_000, 280_200),
    (2_600_000, 272_000),
    (2_700_000, 264_200),
    (2_800_000, 256_900),
    (2_900_000, 249_900),
    (3_000_000, 243_200),
    (3_100_000, 236_800),
    (3_200_000, 230_800),
    (3_300_000, 225_100),
    (3_400_000, 219_700),
    (3_500_000, 214_700),
    (3_600_000, 210_100),
    (3_700_000, 205_800),
    (3_800_000, 201_900),
    (3_900_000, 198_300),
    (4_000_000, 195_000),
    (4_200_000, 189_000),
    (4_400_000, 183_700),
    (4_600_000, 179_100),
    (4_800_000, 175_000),
    (5_000_000, 171_300),
];

/// Drag curve of the Ingalls reference projectile.
pub const GI_TABLE: [(i64, i64); 81] = [
    (0, 228_200),
    (50_000, 228_200),
    (100_000, 228_200),
    (150_000, 228_200),
    (200_000, 228_200),
    (250_000, 228_200),
    (300_000, 228_200),
    (350_000, 228_200),
    (400_000, 228_200),
    (450_000, 228_200),
    (500_000, 228_200),
    (550_000, 228_200),
    (600_000, 228_200),
    (650_000, 228_200),
    (700_000, 228_200),
    (725_000, 235_300),
    (750_000, 243_400),
    (775_000, 251_500),
    (800_000, 259_600),
    (825_000, 267_700),
    (850_000, 275_900),
    (875_000, 291_300),
    (900_000, 317_000),
    (925_000, 344_200),
    (950_000, 372_800),
    (1_000_000, 434_900),
    (1_050_000, 503_400),
    (1_075_000, 540_200),
    (1_100_000, 575_600),
    (1_125_000, 588_700),
    (1_150_000, 601_800),
    (1_175_000, 614_900),
    (1_200_000, 627_900),
    (1_225_000, 641_800),
    (1_250_000, 642_300),
    (1_300_000, 642_300),
    (1_350_000, 642_300),
    (1_400_000, 642_300),
    (1_450_000, 642_300),
    (1_500_000, 642_300),
    (1_550_000, 642_300),
    (1_600_000, 642_300),
    (1_625_000, 640_700),
    (1_650_000, 637_800),
    (1_700_000, 632_100),
    (1_750_000, 626_600),
    (1_800_000, 621_300),
    (1_850_000, 616_300),
    (1_900_000, 611_300),
    (1_950_000, 606_600),
    (2_000_000, 602_000),
    (2_050_000, 597_600),
    (2_100_000, 593_300),
    (2_150_000, 589_100),
    (2_200_000, 585_000),
    (2_250_000, 581_100),
    (2_300_000, 577_300),
    (2_350_000, 573_300),
    (2_400_000, 567_900),
    (2_450_000, 562_600),
    (2_500_000, 557_600),
    (2_600_000, 547_800),
    (2_700_000, 538_600),
    (2_800_000, 529_800),
    (2_900_000, 521_500),
    (3_000_000, 513_600),
    (3_100_000, 506_100),
    (3_200_000, 498_900),
    (3_300_000, 492_100),
    (3_400_000, 485_500),
    (3_500_000, 479_200),
    (3_600_000, 473_200),
    (3_700_000, 467_400),
    (3_800_000, 461_800),
    (3_900_000, 456_400),
    (4_000_000, 451_300),
    (4_200_000, 441_500),
    (4_400_000, 432_300),
    (4_600_000, 423_800),
    (4_800_000, 415_700),
    (5_000_000, 408_200),
];

/// Drag curve of the sphere.
pub const GS_TABLE: [(i64, i64); 81] = [
    (0, 466_200),
    (50_000, 468_900),
    (100_000, 471_700),
    (150_000, 474_500),
    (200_000, 477_200),
    (250_000, 480_000),
    (300_000, 482_700),
    (350_000, 485_200),
    (400_000, 488_200),
    (450_000, 492_000),
    (500_000, 497_000),
    (550_000, 508_000),
    (600_000, 526_000),
    (650_000, 559_000),
    (700_000, 592_000),
    (750_000, 625_800),
    (800_000, 661_000),
    (850_000, 698_500),
    (900_000, 737_000),
    (950_000, 775_700),
    (1_000_000, 814_000),
    (1_050_000, 851_200),
    (1_100_000, 887_000),
    (1_150_000, 921_000),
    (1_200_000, 951_000),
    (1_250_000, 974_000),
    (1_300_000, 991_000),
    (1_350_000, 999_000),
    (1_400_000, 1_003_000),
    (1_450_000, 1_006_000),
    (1_500_000, 1_008_000),
    (1_550_000, 1_009_000),
    (1_600_000, 1_009_000),
    (1_650_000, 1_009_000),
    (1_700_000, 1_009_000),
    (1_750_000, 1_008_000),
    (1_800_000, 1_007_000),
    (1_850_000, 1_006_000),
    (1_900_000, 1_004_000),
    (1_950_000, 1_002_500),
    (2_000_000, 1_001_000),
    (2_050_000, 999_000),
    (2_100_000, 997_000),
    (2_150_000, 995_600),
    (2_200_000, 994_000),
    (2_250_000, 991_600),
    (2_300_000, 989_000),
    (2_350_000, 986_900),
    (2_400_000, 985_000),
    (2_450_000, 983_000),
    (2_500_000, 981_000),
    (2_550_000, 979_000),
    (2_600_000, 977_000),
    (2_650_000, 975_000),
    (2_700_000, 973_000),
    (2_750_000, 971_000),
    (2_800_000, 969_000),
    (2_850_000, 967_000),
    (2_900_000, 965_000),
    (2_950_000, 963_000),
    (3_000_000, 961_000),
    (3_050_000, 958_900),
    (3_100_000, 957_000),
    (3_150_000, 955_500),
    (3_200_000, 954_000),
    (3_250_000, 952_000),
    (3_300_000, 950_000),
    (3_350_000, 948_500),
    (3_400_000, 947_000),
    (3_450_000, 945_000),
    (3_500_000, 943_000),
    (3_550_000, 941_400),
    (3_600_000, 940_000),
    (3_650_000, 938_500),
    (3_700_000, 937_000),
    (3_750_000, 935_500),
    (3_800_000, 934_000),
    (3_850_000, 932_500),
    (3_900_000, 931_000),
    (3_950_000, 929_500),
    (4_000_000, 928_000),
];


/// Saturation vapour pressure of water over temperature, by the Arden Buck
/// equation: one entry per kelvin from 223.15 K to 333.15 K, as a pair of
/// the temperature in millikelvin and the pressure in millipascals.
pub const VAPOR_TABLE: [(i64, i64); 111] = [
    (223_150, 6_394),
    (224_150, 7_164),
    (225_150, 8_018),
    (226_150, 8_963),
    (227_150, 10_008),
    (228_150, 11_164),
    (229_150, 12_439),
    (230_150, 13_846),
    (231_150, 15_396),
    (232_150, 17_102),
    (233_150, 18_978),
    (234_150, 21_039),
    (235_150, 23_301),
    (236_150, 25_781),
    (237_150, 28_497),
    (238_150, 31_470),
    (239_150, 34_722),
    (240_150, 38_274),
    (241_150, 42_151),
    (242_150, 46_380),
    (243_150, 50_989),
    (244_150, 56_007),
    (245_150, 61_465),
    (246_150, 67_399),
    (247_150, 73_844),
    (248_150, 80_839),
    (249_150, 88_424),
    (250_150, 96_644),
    (251_150, 105_544),
    (252_150, 115_173),
    (253_150, 125_584),
    (254_150, 136_832),
    (255_150, 148_975),
    (256_150, 162_074),
    (257_150, 176_197),
    (258_150, 191_410),
    (259_150, 207_789),
    (260_150, 225_410),
    (261_150, 244_354),
    (262_150, 264_707),
    (263_150, 286_560),
    (264_150, 310_009),
    (265_150, 335_153),
    (266_150, 362_098),
    (267_150, 390_955),
    (268_150, 421_841),
    (269_150, 454_878),
    (270_150, 490_196),
    (271_150, 527_928),
    (272_150, 568_217),
    (273_150, 611_210),
    (274_150, 657_063),
    (275_150, 705_939),
    (276_150, 758_007),
    (277_150, 813_445),
    (278_150, 872_440),
    (279_150, 935_185),
    (280_150, 1_001_884),
    (281_150, 1_072_747),
    (282_150, 1_147_996),
    (283_150, 1_227_860),
    (284_150, 1_312_580),
    (285_150, 1_402_406),
    (286_150, 1_497_598),
    (287_150, 1_598_426),
    (288_150, 1_705_173),
    (289_150, 1_818_130),
    (290_150, 1_937_604),
    (291_150, 2_063_909),
    (292_150, 2_197_374),
    (293_150, 2_338_340),
    (294_150, 2_487_161),
    (295_150, 2_644_203),
    (296_150, 2_809_848),
    (297_150, 2_984_488),
    (298_150, 3_168_531),
    (299_150, 3_362_402),
    (300_150, 3_566_536),
    (301_150, 3_781_387),
    (302_150, 4_007_422),
    (303_150, 4_245_126),
    (304_150, 4_494_997),
    (305_150, 4_757_554),
    (306_150, 5_033_329),
    (307_150, 5_322_872),
    (308_150, 5_626_752),
    (309_150, 5_945_555),
    (310_150, 6_279_885),
    (311_150, 6_630_364),
    (312_150, 6_997_636),
    (313_150, 7_382_360),
    (314_150, 7_785_217),
    (315_150, 8_206_908),
    (316_150, 8_648_154),
    (317_150, 9_109_697),
    (318_150, 9_592_300),
    (319_150, 10_096_745),
    (320_150, 10_623_839),
    (321_150, 11_174_410),
    (322_150, 11_749_307),
    (323_150, 12_349_404),
    (324_150, 12_975_595),
    (325_150, 13_628_800),
    (326_150, 14_309_961),
    (327_150, 15_020_045),
    (328_150, 15_760_042),
    (329_150, 16_530_969),
    (330_150, 17_333_864),
    (331_150, 18_169_794),
    (332_150, 19_039_849),
    (333_150, 19_945_145),
];

} // verus!

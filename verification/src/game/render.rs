//! What is to be seen: the game as a list of drawing commands.

use crate::engine::math::{cos_milli, cosine, saturate, saturated};
use crate::engine::preloader::ImageHandle;
use crate::engine::renderer::{
    ammo_command, big_text, block_command, heart_command, hearts, map_commands, tiles_shown,
    value_commands, CanvasRenderer, Draw, Paint,
};
use crate::engine::GameContext;
use crate::game::{Boss, Bullet, Enemy, MyGame, Player, PowerUp, Shooter, Splat, Splatter, SpawnPoint};
use vstd::prelude::*;

verus! {

/// The tick counter as the animations read it: its low 32 bits.
pub open spec fn beat(tick: u64) -> int {
    tick as int % 0x1_0000_0000
}

/// The sprite of a spawn point: the wreck if it has no charge left, else
/// one of two frames of its kind's portal, which take turns every half
/// second, each kind a third of a second behind the one before.
pub open spec fn spawn_sprite(p: SpawnPoint, tick: u64) -> u8 {
    if p.charges < 1 {
        150
    } else {
        let shift: int = if (beat(tick) + p.kind * 20) % 60 > 30 {
            0
        } else {
            8
        };
        ((144 + p.kind * 2 + shift) % 256) as u8
    }
}

/// The command that draws a spawn point: a block two sprites wide around
/// its place.
pub open spec fn spawn_command(image: ImageHandle, p: SpawnPoint, tick: u64) -> Draw {
    block_command(image, spawn_sprite(p, tick), p.pos.x - 16000, p.pos.y - 8000, 2, 1)
}

/// The sprite of a living player: by player, by the side it faces, and by
/// one of two frames that take turns every four ticks while it moves.
pub open spec fn player_sprite(first: bool, p: Player, tick: u64) -> u8 {
    let step = if p.moving {
        (tick as int / 4) % 2
    } else {
        0
    };
    let base: int = if first {
        160
    } else {
        162
    };
    (base + (if p.face_left {
        1int
    } else {
        0int
    }) + 8 * step) as u8
}

/// Whether the crosshair of a player is shown: the aim is pushed more than
/// a tenth of the way.
pub open spec fn aims(p: Player) -> bool {
    p.aim.norm_sq() > 100 * 100
}

/// The commands that draw a player: a corpse where it lies if it is dead;
/// else the player around its place and, if it aims, the crosshair 16
/// units along the aim.
pub open spec fn player_commands(image: ImageHandle, first: bool, p: Player, tick: u64) -> Seq<Draw> {
    if p.health > 0 {
        let body = block_command(
            image,
            player_sprite(first, p, tick),
            p.pos.x - 8000,
            p.pos.y - 8000,
            1,
            1,
        );
        if aims(p) {
            seq![
                body,
                block_command(
                    image,
                    164,
                    p.pos.x - 8000 + 16 * p.aim.x,
                    p.pos.y - 8000 + 16 * p.aim.y,
                    1,
                    1,
                ),
            ]
        } else {
            seq![body]
        }
    } else {
        seq![block_command(image, 167, p.pos.x as int, p.pos.y as int, 1, 1)]
    }
}

/// The sprite of the enemy at place `index` in the list: by kind, by the
/// side its heading points to, and by one of two frames that take turns
/// every five ticks, each enemy a tick behind the one before. Kinds other
/// than 0, 1 and 2 look like the first kind facing left.
pub open spec fn enemy_sprite(e: Enemy, index: int, tick: u64) -> u8 {
    let step = ((beat(tick) + index % 0x1_0000_0000) / 5) % 2;
    let left = cosine(e.heading as int) < 0;
    let base: int = if e.kind == 1 {
        122
    } else if e.kind == 2 {
        124
    } else {
        120
    };
    let side: int = if left || e.kind > 2 {
        1
    } else {
        0
    };
    (base + side - 8 * step) as u8
}

/// The command that draws an enemy around its place.
pub open spec fn enemy_command(image: ImageHandle, e: Enemy, index: int, tick: u64) -> Draw {
    block_command(image, enemy_sprite(e, index, tick), e.pos.x - 8000, e.pos.y - 8000, 1, 1)
}

/// The commands that draw the boss: its body, three sprites by three, one
/// look while charging and another while not; below it a black bar 48
/// units long, and on that a red bar of 0.6 units for each health.
pub open spec fn boss_commands(image: ImageHandle, b: Boss) -> Seq<Draw> {
    seq![
        block_command(
            image,
            if b.charging {
                176
            } else {
                179
            },
            b.pos.x - 12000,
            b.pos.y - 12000,
            3,
            3,
        ),
        Draw::Fill {
            paint: Paint::Black,
            x: saturated(b.pos.x - 12000) as i32,
            y: saturated(b.pos.y + 40000) as i32,
            w: 48000,
            h: 2000,
        },
        Draw::Fill {
            paint: Paint::Red,
            x: saturated(b.pos.x - 12000) as i32,
            y: saturated(b.pos.y + 40000) as i32,
            w: saturated(600 * b.health) as i32,
            h: 2000,
        },
    ]
}

/// The sprite of a bullet, by its owner.
pub open spec fn bullet_sprite(owner: Shooter) -> u8 {
    match owner {
        Shooter::Player(_) => 165,
        Shooter::Enemy(k) => if k == 1 {
            130
        } else if k == 2 {
            132
        } else {
            128
        },
        Shooter::Boss => 78,
    }
}

/// The command that draws a bullet around its place.
pub open spec fn bullet_command(image: ImageHandle, b: Bullet) -> Draw {
    block_command(image, bullet_sprite(b.2), b.0.x - 8000, b.0.y - 8000, 1, 1)
}

/// The command that draws a power-up, if its kind has a sprite.
pub open spec fn power_up_command(image: ImageHandle, u: PowerUp) -> Option<Draw> {
    if u.kind == 0 {
        Some(block_command(image, 106, u.pos.x - 8000, u.pos.y - 8000, 1, 1))
    } else if u.kind == 1 {
        Some(block_command(image, 98, u.pos.x - 8000, u.pos.y - 8000, 1, 1))
    } else {
        None
    }
}

/// The stage of an explosion with `life` ticks to live: it runs from 1 to
/// 7 as the life runs out.
pub open spec fn blast_stage(life: i8) -> int {
    let spent = 8 - (if life >= 0 {
        life as int / 4
    } else {
        -((-(life as int)) / 4)
    });
    if spent < 0 {
        0
    } else if spent > 7 {
        7
    } else {
        spent
    }
}

/// The sprite of a particle: by kind; an explosion by its stage, the
/// others by whether fewer than ten ticks are left.
pub open spec fn splat_sprite(p: Splatter) -> u8 {
    let late: int = if p.life < 10 {
        8
    } else {
        0
    };
    match p.kind {
        Splat::Sparks => (134 + late) as u8,
        Splat::Water => (135 + late) as u8,
        Splat::Blood => (166 + late) as u8,
        Splat::Enemy(e) => ((129 + e * 2 + late) % 256) as u8,
        Splat::Explosion => (208 + blast_stage(p.life)) as u8,
    }
}

/// The command that draws a particle around its place.
pub open spec fn splat_command(image: ImageHandle, p: Splatter) -> Draw {
    block_command(image, splat_sprite(p), p.pos.x - 8000, p.pos.y - 8000, 1, 1)
}

/// The commands that draw the hearts of `count` health.
pub open spec fn heart_commands(image: ImageHandle, x: int, y: int, count: int) -> Seq<Draw> {
    Seq::new(hearts(count) as nat, |k: int| heart_command(image, x, y, count, k))
}

/// The head-up display: from the left player 1's score, ammunition and
/// hearts; from the right player 2's hearts, ammunition and score; and
/// once both players are dead, the words that say so on a veil.
pub open spec fn hud_commands(
    numbers: ImageHandle,
    one: Player,
    two: Player,
    width: int,
) -> Seq<Draw> {
    let right = saturated(width - 60000);
    let right_ammo = saturated(right - 50000);
    let right_sign = saturated(right_ammo - 12000);
    let right_score = saturated(right_sign - 48000);
    let left_side = value_commands(numbers, 10000, 10000, one.score as int) + seq![
        ammo_command(numbers, 58000, 10000),
    ] + value_commands(numbers, 70000, 10000, one.ammo as int) + heart_commands(
        numbers,
        120000,
        10000,
        one.health as int,
    );
    let right_side = heart_commands(numbers, right, 10000, two.health as int) + value_commands(
        numbers,
        right_ammo,
        10000,
        two.ammo as int,
    ) + seq![ammo_command(numbers, right_sign, 10000)] + value_commands(
        numbers,
        right_score,
        10000,
        two.score as int,
    );
    let game_over = if one.health < 1 && two.health < 1 {
        seq![Draw::Fill { paint: Paint::Veil, x: 96000, y: 222000, w: 768000, h: 96000 }]
            + big_text(numbers, 272000, 254000, "@ GAME OVER @"@)
    } else {
        Seq::empty()
    };
    left_side + right_side + game_over
}

/// The commands that draw the ground, if a playable map is loaded.
pub open spec fn ground_commands(game: &MyGame, image: ImageHandle, width: int, height: int) -> Seq<Draw> {
    if game.map is Some && game.map->0.playable() {
        map_commands(
            image,
            game.map->0.ground(),
            tiles_shown(width, game.map->0.width as int),
            tiles_shown(height, game.map->0.height as int),
        )
    } else {
        Seq::empty()
    }
}

impl MyGame {
    /// The stage: the map, the spawn points and the two players.
    pub open spec fn stage(&self, image: ImageHandle, tick: u64, width: int, height: int) -> Seq<
        Draw,
    > {
        ground_commands(self, image, width, height) + self.spawn_points@.map_values(
            |p: SpawnPoint| spawn_command(image, p, tick),
        ) + player_commands(image, true, self.player_1, tick) + player_commands(
            image,
            false,
            self.player_2,
            tick,
        )
    }

    /// The cast: the enemies, the boss and the bullets.
    pub open spec fn cast(&self, image: ImageHandle, tick: u64) -> Seq<Draw> {
        self.enemies@.map(|i: int, e: Enemy| enemy_command(image, e, i, tick)) + (match self.boss {
            Some(b) => boss_commands(image, b),
            None => Seq::empty(),
        }) + self.bullets@.map_values(|b: Bullet| bullet_command(image, b))
    }

    /// The effects: the power-ups and the particles.
    pub open spec fn effects(&self, image: ImageHandle) -> Seq<Draw> {
        self.power_ups@.filter_map(|u: PowerUp| power_up_command(image, u))
            + self.splatter@.map_values(|p: Splatter| splat_command(image, p))
    }

    /// The head-up display, if the sheet of digits is loaded.
    pub open spec fn display(&self, width: int) -> Seq<Draw> {
        match self.numbers {
            Some(numbers) => hud_commands(numbers, self.player_1, self.player_2, width),
            None => Seq::empty(),
        }
    }

    /// Everything that is drawn for this game on a canvas of the given
    /// size, bottom to top: the black ground; then, if the sprite sheet is
    /// loaded, the stage, the cast, the effects and the head-up display.
    pub open spec fn scene(&self, ctx: &GameContext, width: int, height: int) -> Seq<Draw> {
        let ground = seq![
            Draw::Fill { paint: Paint::Black, x: 0, y: 0, w: width as i32, h: height as i32 },
        ];
        match self.sprites {
            Some(image) => ground + self.stage(image, ctx.tick, width, height) + self.cast(
                image,
                ctx.tick,
            ) + self.effects(image) + self.display(ctx.window_width as int),
            None => ground,
        }
    }

    /// Draws the spawn points.
    pub fn render_spawn_points(&self, renderer: &mut CanvasRenderer, image: &ImageHandle, tick: u64)
        ensures
            final(renderer).commands@ == old(renderer).commands@ + self.spawn_points@.map_values(
                |p: SpawnPoint| spawn_command(*image, p, tick),
            ),
            final(renderer).width == old(renderer).width,
            final(renderer).height == old(renderer).height,
    {
        let ghost before = renderer.commands@;
        let n = self.spawn_points.len();
        let mut i: usize = 0;
        while i < n
            invariant
                i <= n,
                n == self.spawn_points@.len(),
                renderer.width == old(renderer).width,
                renderer.height == old(renderer).height,
                renderer.commands@.len() == before.len() + i,
                forall|j: int| 0 <= j < before.len() ==> renderer.commands@[j] == before[j],
                forall|j: int|
                    0 <= j < i ==> renderer.commands@[before.len() + j] == spawn_command(
                        *image,
                        self.spawn_points@[j],
                        tick,
                    ),
            decreases n - i,
        {
            let p = self.spawn_points[i];
            let sprite: u8 = if p.charges < 1 {
                150
            } else {
                let phase: u64 = (tick % 0x1_0000_0000 + p.kind as u64 * 20) % 60;
                let shift: u32 = if phase > 30 {
                    0
                } else {
                    8
                };
                ((144 + p.kind as u32 * 2 + shift) % 256) as u8
            };
            renderer.draw_block(
                image,
                sprite,
                saturate(p.pos.x as i64 - 16000),
                saturate(p.pos.y as i64 - 8000),
                2,
                1,
            );
            proof {
                lemma_block_saturates(*image, sprite, p.pos.x - 16000, p.pos.y - 8000, 2, 1);
            }
            i = i + 1;
        }
        assert(renderer.commands@ =~= before + self.spawn_points@.map_values(
            |p: SpawnPoint| spawn_command(*image, p, tick),
        ));
    }

    /// Draws one player.
    pub fn render_player(renderer: &mut CanvasRenderer, image: &ImageHandle, first: bool, p: &Player, tick: u64)
        ensures
            final(renderer).commands@ == old(renderer).commands@ + player_commands(
                *image,
                first,
                *p,
                tick,
            ),
            final(renderer).width == old(renderer).width,
            final(renderer).height == old(renderer).height,
    {
        let ghost before = renderer.commands@;
        if p.health > 0 {
            let step: u8 = if p.moving {
                ((tick / 4) % 2) as u8
            } else {
                0
            };
            let base: u8 = if first {
                160
            } else {
                162
            };
            let side: u8 = if p.face_left {
                1
            } else {
                0
            };
            let sprite: u8 = base + side + 8 * step;
            renderer.draw_sprite(
                image,
                sprite,
                saturate(p.pos.x as i64 - 8000),
                saturate(p.pos.y as i64 - 8000),
            );
            proof {
                lemma_block_saturates(*image, sprite, p.pos.x - 8000, p.pos.y - 8000, 1, 1);
            }
            let ax: i64 = p.aim.x as i64;
            let ay: i64 = p.aim.y as i64;
            assert(0 <= ax * ax <= 0x4000_0000_0000_0000 && 0 <= ay * ay <= 0x4000_0000_0000_0000)
                by (nonlinear_arith)
                requires
                    -0x8000_0000 <= ax <= 0x7fff_ffff,
                    -0x8000_0000 <= ay <= 0x7fff_ffff,
            ;
            if (ax * ax) as u64 + (ay * ay) as u64 > 10000 {
                renderer.draw_sprite(
                    image,
                    164,
                    saturate(p.pos.x as i64 - 8000 + 16 * ax),
                    saturate(p.pos.y as i64 - 8000 + 16 * ay),
                );
                proof {
                    lemma_block_saturates(
                        *image,
                        164,
                        p.pos.x - 8000 + 16 * p.aim.x,
                        p.pos.y - 8000 + 16 * p.aim.y,
                        1,
                        1,
                    );
                }
            }
        } else {
            renderer.draw_sprite(image, 167, p.pos.x, p.pos.y);
        }
        assert(renderer.commands@ =~= before + player_commands(*image, first, *p, tick));
    }

    /// Draws the enemies.
    pub fn render_enemies(&self, renderer: &mut CanvasRenderer, image: &ImageHandle, tick: u64)
        ensures
            final(renderer).commands@ == old(renderer).commands@ + self.enemies@.map(
                |i: int, e: Enemy| enemy_command(*image, e, i, tick),
            ),
            final(renderer).width == old(renderer).width,
            final(renderer).height == old(renderer).height,
    {
        let ghost before = renderer.commands@;
        let n = self.enemies.len();
        let mut i: usize = 0;
        while i < n
            invariant
                i <= n,
                n == self.enemies@.len(),
                renderer.width == old(renderer).width,
                renderer.height == old(renderer).height,
                renderer.commands@.len() == before.len() + i,
                forall|j: int| 0 <= j < before.len() ==> renderer.commands@[j] == before[j],
                forall|j: int|
                    0 <= j < i ==> renderer.commands@[before.len() + j] == enemy_command(
                        *image,
                        self.enemies@[j],
                        j,
                        tick,
                    ),
            decreases n - i,
        {
            let e = self.enemies[i];
            let step: u8 = (((tick % 0x1_0000_0000 + (i as u64) % 0x1_0000_0000) / 5) % 2) as u8;
            let left = cos_milli(e.heading) < 0;
            let base: u8 = if e.kind == 1 {
                122
            } else if e.kind == 2 {
                124
            } else {
                120
            };
            let side: u8 = if left || e.kind > 2 {
                1
            } else {
                0
            };
            let sprite: u8 = base + side - 8 * step;
            renderer.draw_sprite(
                image,
                sprite,
                saturate(e.pos.x as i64 - 8000),
                saturate(e.pos.y as i64 - 8000),
            );
            proof {
                lemma_block_saturates(*image, sprite, e.pos.x - 8000, e.pos.y - 8000, 1, 1);
            }
            i = i + 1;
        }
        assert(renderer.commands@ =~= before + self.enemies@.map(
            |i: int, e: Enemy| enemy_command(*image, e, i, tick),
        ));
    }

    /// Draws the boss.
    pub fn render_boss(renderer: &mut CanvasRenderer, image: &ImageHandle, b: &Boss)
        ensures
            final(renderer).commands@ == old(renderer).commands@ + boss_commands(*image, *b),
            final(renderer).width == old(renderer).width,
            final(renderer).height == old(renderer).height,
    {
        let ghost before = renderer.commands@;
        let x = saturate(b.pos.x as i64 - 12000);
        let sprite: u8 = if b.charging {
            176
        } else {
            179
        };
        renderer.draw_block(image, sprite, x, saturate(b.pos.y as i64 - 12000), 3, 3);
        proof {
            lemma_block_saturates(*image, sprite, b.pos.x - 12000, b.pos.y - 12000, 3, 3);
        }
        let y = saturate(b.pos.y as i64 + 40000);
        renderer.draw_rect(Paint::Black, x, y, 48000, 2000);
        renderer.draw_rect(Paint::Red, x, y, saturate(600 * b.health as i64), 2000);
        assert(renderer.commands@ =~= before + boss_commands(*image, *b));
    }

    /// Draws the bullets.
    pub fn render_bullets(&self, renderer: &mut CanvasRenderer, image: &ImageHandle)
        ensures
            final(renderer).commands@ == old(renderer).commands@ + self.bullets@.map_values(
                |b: Bullet| bullet_command(*image, b),
            ),
            final(renderer).width == old(renderer).width,
            final(renderer).height == old(renderer).height,
    {
        let ghost before = renderer.commands@;
        let n = self.bullets.len();
        let mut i: usize = 0;
        while i < n
            invariant
                i <= n,
                n == self.bullets@.len(),
                renderer.width == old(renderer).width,
                renderer.height == old(renderer).height,
                renderer.commands@.len() == before.len() + i,
                forall|j: int| 0 <= j < before.len() ==> renderer.commands@[j] == before[j],
                forall|j: int|
                    0 <= j < i ==> renderer.commands@[before.len() + j] == bullet_command(
                        *image,
                        self.bullets@[j],
                    ),
            decreases n - i,
        {
            let b = self.bullets[i];
            let sprite: u8 = match b.2 {
                Shooter::Player(_) => 165,
                Shooter::Enemy(k) => if k == 1 {
                    130
                } else if k == 2 {
                    132
                } else {
                    128
                },
                Shooter::Boss => 78,
            };
            renderer.draw_sprite(
                image,
                sprite,
                saturate(b.0.x as i64 - 8000),
                saturate(b.0.y as i64 - 8000),
            );
            proof {
                lemma_block_saturates(*image, sprite, b.0.x - 8000, b.0.y - 8000, 1, 1);
            }
            i = i + 1;
        }
        assert(renderer.commands@ =~= before + self.bullets@.map_values(
            |b: Bullet| bullet_command(*image, b),
        ));
    }

    /// Draws the power-ups.
    pub fn render_power_ups(&self, renderer: &mut CanvasRenderer, image: &ImageHandle)
        ensures
            final(renderer).commands@ == old(renderer).commands@ + self.power_ups@.filter_map(
                |u: PowerUp| power_up_command(*image, u),
            ),
            final(renderer).width == old(renderer).width,
            final(renderer).height == old(renderer).height,
    {
        let ghost before = renderer.commands@;
        let ghost shown = |u: PowerUp| power_up_command(*image, u);
        let n = self.power_ups.len();
        let mut i: usize = 0;
        assert(self.power_ups@.take(0) =~= Seq::<PowerUp>::empty());
        assert(renderer.commands@ =~= before + self.power_ups@.take(0).filter_map(shown));
        while i < n
            invariant
                i <= n,
                n == self.power_ups@.len(),
                shown == (|u: PowerUp| power_up_command(*image, u)),
                renderer.width == old(renderer).width,
                renderer.height == old(renderer).height,
                renderer.commands@ == before + self.power_ups@.take(i as int).filter_map(shown),
            decreases n - i,
        {
            let u = self.power_ups[i];
            let ghost so_far = self.power_ups@.take(i as int).filter_map(shown);
            assert(self.power_ups@.take(i + 1).drop_last() =~= self.power_ups@.take(i as int));
            assert(self.power_ups@.take(i + 1).last() == u);
            let x = saturate(u.pos.x as i64 - 8000);
            let y = saturate(u.pos.y as i64 - 8000);
            if u.kind == 0 {
                renderer.draw_sprite(image, 106, x, y);
                proof {
                    lemma_block_saturates(*image, 106, u.pos.x - 8000, u.pos.y - 8000, 1, 1);
                }
            } else if u.kind == 1 {
                renderer.draw_sprite(image, 98, x, y);
                proof {
                    lemma_block_saturates(*image, 98, u.pos.x - 8000, u.pos.y - 8000, 1, 1);
                }
            }
            i = i + 1;
            assert(renderer.commands@ =~= before + self.power_ups@.take(i as int).filter_map(shown));
        }
        assert(self.power_ups@.take(n as int) =~= self.power_ups@);
    }

    /// Draws the particles.
    pub fn render_splatter(&self, renderer: &mut CanvasRenderer, image: &ImageHandle)
        ensures
            final(renderer).commands@ == old(renderer).commands@ + self.splatter@.map_values(
                |p: Splatter| splat_command(*image, p),
            ),
            final(renderer).width == old(renderer).width,
            final(renderer).height == old(renderer).height,
    {
        let ghost before = renderer.commands@;
        let n = self.splatter.len();
        let mut i: usize = 0;
        while i < n
            invariant
                i <= n,
                n == self.splatter@.len(),
                renderer.width == old(renderer).width,
                renderer.height == old(renderer).height,
                renderer.commands@.len() == before.len() + i,
                forall|j: int| 0 <= j < before.len() ==> renderer.commands@[j] == before[j],
                forall|j: int|
                    0 <= j < i ==> renderer.commands@[before.len() + j] == splat_command(
                        *image,
                        self.splatter@[j],
                    ),
            decreases n - i,
        {
            let p = self.splatter[i];
            let late: u32 = if p.life < 10 {
                8
            } else {
                0
            };
            let sprite: u8 = match p.kind {
                Splat::Sparks => (134 + late) as u8,
                Splat::Water => (135 + late) as u8,
                Splat::Blood => (166 + late) as u8,
                Splat::Enemy(e) => ((129 + e as u32 * 2 + late) % 256) as u8,
                Splat::Explosion => {
                    let spent: i32 = 8 - (p.life as i32) / 4;
                    let stage: i32 = if spent < 0 {
                        0
                    } else if spent > 7 {
                        7
                    } else {
                        spent
                    };
                    (208 + stage) as u8
                },
            };
            renderer.draw_sprite(
                image,
                sprite,
                saturate(p.pos.x as i64 - 8000),
                saturate(p.pos.y as i64 - 8000),
            );
            proof {
                lemma_block_saturates(*image, sprite, p.pos.x - 8000, p.pos.y - 8000, 1, 1);
            }
            i = i + 1;
        }
        assert(renderer.commands@ =~= before + self.splatter@.map_values(
            |p: Splatter| splat_command(*image, p),
        ));
    }

    /// Draws the head-up display.
    pub fn render_hud(&self, renderer: &mut CanvasRenderer, numbers: &ImageHandle, width: i32)
        ensures
            final(renderer).commands@ == old(renderer).commands@ + hud_commands(
                *numbers,
                self.player_1,
                self.player_2,
                width as int,
            ),
            final(renderer).width == old(renderer).width,
            final(renderer).height == old(renderer).height,
    {
        let ghost before = renderer.commands@;
        renderer.draw_value(numbers, 10000, 10000, self.player_1.score);
        renderer.draw_ammo(numbers, 58000, 10000);
        renderer.draw_value(numbers, 70000, 10000, self.player_1.ammo);
        renderer.draw_hearts(numbers, 120000, 10000, self.player_1.health);
        let right = saturate(width as i64 - 60000);
        renderer.draw_hearts(numbers, right, 10000, self.player_2.health);
        let right_ammo = saturate(right as i64 - 50000);
        renderer.draw_value(numbers, right_ammo, 10000, self.player_2.ammo);
        let right_sign = saturate(right_ammo as i64 - 12000);
        renderer.draw_ammo(numbers, right_sign, 10000);
        let right_score = saturate(right_sign as i64 - 48000);
        renderer.draw_value(numbers, right_score, 10000, self.player_2.score);
        if self.player_1.health < 1 && self.player_2.health < 1 {
            renderer.draw_rect(Paint::Veil, 96000, 222000, 768000, 96000);
            renderer.draw_big_text(numbers, 272000, 254000, "@ GAME OVER @");
        }
        assert(renderer.commands@ =~= before + hud_commands(
            *numbers,
            self.player_1,
            self.player_2,
            width as int,
        ));
    }

    /// Draws the stage.
    pub fn render_stage(&self, renderer: &mut CanvasRenderer, image: &ImageHandle, tick: u64)
        ensures
            final(renderer).commands@ == old(renderer).commands@ + self.stage(
                *image,
                tick,
                old(renderer).width as int,
                old(renderer).height as int,
            ),
            final(renderer).width == old(renderer).width,
            final(renderer).height == old(renderer).height,
    {
        let ghost before = renderer.commands@;
        match &self.map {
            Some(map) => {
                if map.is_playable() {
                    renderer.draw_map(map, image);
                }
            },
            None => {},
        }
        let ghost with_map = renderer.commands@;
        self.render_spawn_points(renderer, image, tick);
        let ghost with_points = renderer.commands@;
        MyGame::render_player(renderer, image, true, &self.player_1, tick);
        let ghost with_first = renderer.commands@;
        MyGame::render_player(renderer, image, false, &self.player_2, tick);
        proof {
            let map_part = ground_commands(
                self,
                *image,
                old(renderer).width as int,
                old(renderer).height as int,
            );
            let points_part = self.spawn_points@.map_values(
                |p: SpawnPoint| spawn_command(*image, p, tick),
            );
            let first_part = player_commands(*image, true, self.player_1, tick);
            let second_part = player_commands(*image, false, self.player_2, tick);
            assert(with_map =~= before + map_part);
            assert(with_points == with_map + points_part);
            assert(with_first == with_points + first_part);
            assert(renderer.commands@ == with_first + second_part);
            assert(renderer.commands@ =~= before + (map_part + points_part + first_part
                + second_part));
        }
    }

    /// Draws the cast.
    pub fn render_cast(&self, renderer: &mut CanvasRenderer, image: &ImageHandle, tick: u64)
        ensures
            final(renderer).commands@ == old(renderer).commands@ + self.cast(*image, tick),
            final(renderer).width == old(renderer).width,
            final(renderer).height == old(renderer).height,
    {
        let ghost before = renderer.commands@;
        self.render_enemies(renderer, image, tick);
        let ghost with_enemies = renderer.commands@;
        match &self.boss {
            Some(b) => {
                MyGame::render_boss(renderer, image, b);
            },
            None => {},
        }
        let ghost with_boss = renderer.commands@;
        self.render_bullets(renderer, image);
        proof {
            let enemies_part = self.enemies@.map(
                |i: int, e: Enemy| enemy_command(*image, e, i, tick),
            );
            let boss_part = match self.boss {
                Some(b) => boss_commands(*image, b),
                None => Seq::empty(),
            };
            let bullets_part = self.bullets@.map_values(|b: Bullet| bullet_command(*image, b));
            assert(with_enemies == before + enemies_part);
            assert(with_boss =~= with_enemies + boss_part);
            assert(renderer.commands@ == with_boss + bullets_part);
            assert(renderer.commands@ =~= before + (enemies_part + boss_part + bullets_part));
        }
    }

    /// Draws the effects.
    pub fn render_effects(&self, renderer: &mut CanvasRenderer, image: &ImageHandle)
        ensures
            final(renderer).commands@ == old(renderer).commands@ + self.effects(*image),
            final(renderer).width == old(renderer).width,
            final(renderer).height == old(renderer).height,
    {
        let ghost before = renderer.commands@;
        self.render_power_ups(renderer, image);
        let ghost with_power_ups = renderer.commands@;
        self.render_splatter(renderer, image);
        proof {
            let power_ups_part = self.power_ups@.filter_map(
                |u: PowerUp| power_up_command(*image, u),
            );
            let particles_part = self.splatter@.map_values(
                |p: Splatter| splat_command(*image, p),
            );
            assert(with_power_ups == before + power_ups_part);
            assert(renderer.commands@ == with_power_ups + particles_part);
            assert(renderer.commands@ =~= before + (power_ups_part + particles_part));
        }
    }

    /// Draws the head-up display, if the sheet of digits is loaded.
    pub fn render_display(&self, renderer: &mut CanvasRenderer, width: i32)
        ensures
            final(renderer).commands@ == old(renderer).commands@ + self.display(width as int),
            final(renderer).width == old(renderer).width,
            final(renderer).height == old(renderer).height,
    {
        let ghost before = renderer.commands@;
        match &self.numbers {
            Some(numbers) => {
                self.render_hud(renderer, numbers, width);
            },
            None => {
                assert(renderer.commands@ =~= before + Seq::<Draw>::empty());
            },
        }
    }

    /// Draws the game.
    pub fn render(&self, renderer: &mut CanvasRenderer, ctx: &GameContext)
        ensures
            final(renderer).commands@ == old(renderer).commands@ + self.scene(
                ctx,
                old(renderer).width as int,
                old(renderer).height as int,
            ),
            final(renderer).width == old(renderer).width,
            final(renderer).height == old(renderer).height,
    {
        let ghost before = renderer.commands@;
        let ghost width = renderer.width as int;
        let ghost height = renderer.height as int;
        renderer.clear();
        let ghost ground = seq![
            Draw::Fill { paint: Paint::Black, x: 0, y: 0, w: renderer.width, h: renderer.height },
        ];
        let ghost cleared = renderer.commands@;
        assert(cleared =~= before + ground);
        match &self.sprites {
            Some(image) => {
                self.render_stage(renderer, image, ctx.tick);
                let ghost staged = renderer.commands@;
                self.render_cast(renderer, image, ctx.tick);
                let ghost with_cast = renderer.commands@;
                self.render_effects(renderer, image);
                let ghost with_effects = renderer.commands@;
                self.render_display(renderer, ctx.window_width);
                proof {
                    let stage = self.stage(*image, ctx.tick, width, height);
                    let cast = self.cast(*image, ctx.tick);
                    let effects = self.effects(*image);
                    let display = self.display(ctx.window_width as int);
                    assert(staged == cleared + stage);
                    assert(with_cast == staged + cast);
                    assert(with_effects == with_cast + effects);
                    assert(renderer.commands@ == with_effects + display);
                    assert(renderer.commands@ =~= before + (ground + stage + cast + effects
                        + display));
                }
            },
            None => {},
        }
    }
}

/// Rounding a place to whole units gives the same whether or not the
/// place was cut off at the ends of the 32-bit range first.
pub proof fn lemma_block_saturates(image: ImageHandle, idx: u8, x: int, y: int, w: u8, h: u8)
    ensures
        block_command(image, idx, saturated(x), saturated(y), w, h) == block_command(
            image,
            idx,
            x,
            y,
            w,
            h,
        ),
{
}

} // verus!
